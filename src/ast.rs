//! The module tree that the transforms read and rebuild, with its
//! mathematical model.
use vstd::prelude::*;

verus! {

/// The runtime an artifact is compiled for.
#[derive(PartialEq, Eq, Structural, Clone, Copy, Debug)]
pub enum BundleTarget {
    Server,
    Client,
    Edge,
}

/// One binding of an import declaration.
#[derive(Debug, PartialEq, Eq)]
pub enum ImportSpecifier {
    /// `import local from "src"`
    Default { local: String },
    /// `import * as local from "src"`
    Namespace { local: String },
    /// `import { imported as local } from "src"`
    Named { imported: String, local: String },
}

/// `import <specifiers> from "<src>"`.
#[derive(Debug, PartialEq, Eq)]
pub struct ImportDecl {
    pub src: String,
    pub specifiers: Vec<ImportSpecifier>,
}

/// A top-level item of a module.
#[derive(Debug, PartialEq, Eq)]
pub enum ModuleItem {
    Import(ImportDecl),
    /// A bare string-literal expression statement.
    Directive(String),
    /// `export function name() { body }`; a default-exported function has the
    /// name `default`.
    ExportFn { name: String, body: String },
    /// `export default <body>`
    ExportDefault { body: String },
    /// Any other exported declaration, with the names it exports:
    /// `export const a = ...`, `export class A {}`, `export { a, b }`;
    /// `is_function` where each of those names is bound to a function.
    ExportDecl { names: Vec<String>, body: String, is_function: bool },
    /// `export { names } from "src"`
    ReExport { src: String, names: Vec<String> },
    /// `export * from "src"`
    ReExportAll { src: String },
    /// Any other statement, kept as its source text.
    Stmt(String),
    /// Stands for an export whose implementation lives in the client bundle.
    ClientReference { file: String, export: String, target: BundleTarget },
    /// An exported server declaration, kept, and registered under its names
    /// for invocation by reference.
    ServerAction { file: String, exports: Vec<String>, body: String },
}

/// One module's tree.
#[derive(Debug, PartialEq, Eq)]
pub struct Program {
    pub items: Vec<ModuleItem>,
}

pub enum SpecifierModel {
    Default { local: Seq<char> },
    Namespace { local: Seq<char> },
    Named { imported: Seq<char>, local: Seq<char> },
}

pub struct ImportModel {
    pub src: Seq<char>,
    pub specifiers: Seq<SpecifierModel>,
}

pub enum ItemModel {
    Import(ImportModel),
    Directive(Seq<char>),
    ExportFn { name: Seq<char>, body: Seq<char> },
    ExportDefault { body: Seq<char> },
    ExportDecl { names: Seq<Seq<char>>, body: Seq<char>, is_function: bool },
    ReExport { src: Seq<char>, names: Seq<Seq<char>> },
    ReExportAll { src: Seq<char> },
    Stmt(Seq<char>),
    ClientReference { file: Seq<char>, export: Seq<char>, target: BundleTarget },
    ServerAction { file: Seq<char>, exports: Seq<Seq<char>>, body: Seq<char> },
}

pub open spec fn view_strings(s: Seq<String>) -> Seq<Seq<char>> {
    s.map_values(|x: String| x@)
}

pub open spec fn view_specifiers(s: Seq<ImportSpecifier>) -> Seq<SpecifierModel> {
    s.map_values(|x: ImportSpecifier| x@)
}

pub open spec fn view_items(s: Seq<ModuleItem>) -> Seq<ItemModel> {
    s.map_values(|x: ModuleItem| x@)
}

impl View for ImportSpecifier {
    type V = SpecifierModel;

    open spec fn view(&self) -> SpecifierModel {
        match self {
            ImportSpecifier::Default { local } => SpecifierModel::Default { local: local@ },
            ImportSpecifier::Namespace { local } => SpecifierModel::Namespace { local: local@ },
            ImportSpecifier::Named { imported, local } => SpecifierModel::Named {
                imported: imported@,
                local: local@,
            },
        }
    }
}

impl View for ImportDecl {
    type V = ImportModel;

    open spec fn view(&self) -> ImportModel {
        ImportModel { src: self.src@, specifiers: view_specifiers(self.specifiers@) }
    }
}

impl View for ModuleItem {
    type V = ItemModel;

    open spec fn view(&self) -> ItemModel {
        match self {
            ModuleItem::Import(d) => ItemModel::Import(d@),
            ModuleItem::Directive(s) => ItemModel::Directive(s@),
            ModuleItem::ExportFn { name, body } => ItemModel::ExportFn { name: name@, body: body@ },
            ModuleItem::ExportDefault { body } => ItemModel::ExportDefault { body: body@ },
            ModuleItem::ExportDecl { names, body, is_function } => ItemModel::ExportDecl {
                names: view_strings(names@),
                body: body@,
                is_function: *is_function,
            },
            ModuleItem::ReExport { src, names } => ItemModel::ReExport {
                src: src@,
                names: view_strings(names@),
            },
            ModuleItem::ReExportAll { src } => ItemModel::ReExportAll { src: src@ },
            ModuleItem::Stmt(s) => ItemModel::Stmt(s@),
            ModuleItem::ClientReference { file, export, target } => ItemModel::ClientReference {
                file: file@,
                export: export@,
                target: *target,
            },
            ModuleItem::ServerAction { file, exports, body } => ItemModel::ServerAction {
                file: file@,
                exports: view_strings(exports@),
                body: body@,
            },
        }
    }
}

impl View for Program {
    type V = Seq<ItemModel>;

    open spec fn view(&self) -> Seq<ItemModel> {
        view_items(self.items@)
    }
}

/// A copy of a list of strings.
pub fn copy_strings(s: &Vec<String>) -> (r: Vec<String>)
    ensures
        view_strings(r@) == view_strings(s@),
{
    let mut r: Vec<String> = Vec::new();
    let mut i: usize = 0;
    while i < s.len()
        invariant
            i <= s.len(),
            r@.len() == i,
            forall|j: int| 0 <= j < i ==> #[trigger] r@[j]@ == s@[j]@,
        decreases s.len() - i,
    {
        r.push(s[i].clone());
        i = i + 1;
    }
    assert(view_strings(r@) =~= view_strings(s@));
    r
}

impl ImportSpecifier {
    pub fn copy(&self) -> (r: ImportSpecifier)
        ensures
            r@ == self@,
    {
        match self {
            ImportSpecifier::Default { local } => ImportSpecifier::Default { local: local.clone() },
            ImportSpecifier::Namespace { local } => ImportSpecifier::Namespace {
                local: local.clone(),
            },
            ImportSpecifier::Named { imported, local } => ImportSpecifier::Named {
                imported: imported.clone(),
                local: local.clone(),
            },
        }
    }
}

impl ImportDecl {
    pub fn copy(&self) -> (r: ImportDecl)
        ensures
            r@ == self@,
    {
        let mut specifiers: Vec<ImportSpecifier> = Vec::new();
        let mut i: usize = 0;
        while i < self.specifiers.len()
            invariant
                i <= self.specifiers.len(),
                specifiers@.len() == i,
                forall|j: int| 0 <= j < i ==> #[trigger] specifiers@[j]@ == self.specifiers@[j]@,
            decreases self.specifiers.len() - i,
        {
            specifiers.push(self.specifiers[i].copy());
            i = i + 1;
        }
        assert(view_specifiers(specifiers@) =~= view_specifiers(self.specifiers@));
        ImportDecl { src: self.src.clone(), specifiers }
    }
}

impl ModuleItem {
    pub fn copy(&self) -> (r: ModuleItem)
        ensures
            r@ == self@,
    {
        match self {
            ModuleItem::Import(d) => ModuleItem::Import(d.copy()),
            ModuleItem::Directive(s) => ModuleItem::Directive(s.clone()),
            ModuleItem::ExportFn { name, body } => ModuleItem::ExportFn {
                name: name.clone(),
                body: body.clone(),
            },
            ModuleItem::ExportDefault { body } => ModuleItem::ExportDefault { body: body.clone() },
            ModuleItem::ExportDecl { names, body, is_function } => ModuleItem::ExportDecl {
                names: copy_strings(names),
                body: body.clone(),
                is_function: *is_function,
            },
            ModuleItem::ReExport { src, names } => ModuleItem::ReExport {
                src: src.clone(),
                names: copy_strings(names),
            },
            ModuleItem::ReExportAll { src } => ModuleItem::ReExportAll { src: src.clone() },
            ModuleItem::Stmt(s) => ModuleItem::Stmt(s.clone()),
            ModuleItem::ClientReference { file, export, target } => ModuleItem::ClientReference {
                file: file.clone(),
                export: export.clone(),
                target: *target,
            },
            ModuleItem::ServerAction { file, exports, body } => ModuleItem::ServerAction {
                file: file.clone(),
                exports: copy_strings(exports),
                body: body.clone(),
            },
        }
    }
}

impl Program {
    pub fn copy(&self) -> (r: Program)
        ensures
            r@ == self@,
    {
        let mut items: Vec<ModuleItem> = Vec::new();
        let mut i: usize = 0;
        while i < self.items.len()
            invariant
                i <= self.items.len(),
                items@.len() == i,
                forall|j: int| 0 <= j < i ==> #[trigger] items@[j]@ == self.items@[j]@,
            decreases self.items.len() - i,
        {
            items.push(self.items[i].copy());
            i = i + 1;
        }
        assert(view_items(items@) =~= view_items(self.items@));
        Program { items }
    }
}

} // verus!
