//! Classifies a module by its directive prologue and rewrites it for the side
//! of the server/client boundary that is being compiled.
use vstd::prelude::*;
use vstd::string::*;
use crate::ast::{
    copy_strings, view_items, view_strings, BundleTarget, ImportDecl, ItemModel, ModuleItem, Program,
};

verus! {

/// What a module's directive prologue makes of it.
#[derive(PartialEq, Eq, Structural, Clone, Copy, Debug)]
pub enum Classification {
    /// No recognised directive.
    ServerModule,
    /// `"use client"`.
    ClientBoundary,
    /// `"use server"`.
    ServerActionModule,
}

/// A module that crosses the server/client boundary the wrong way.
#[derive(PartialEq, Eq, Structural, Clone, Copy, Debug)]
pub enum BoundaryError {
    /// A client boundary compiled for the client imports `server-only`.
    ClientImportsServerOnly,
    /// A module without a directive is compiled for the client bundle.
    UnmarkedModuleInClientBundle,
    /// A client boundary compiled for the server re-exports `*`, whose names
    /// cannot be listed here.
    WildcardExportInClientBoundary,
}

/// Whether the prologue, the leading run of string-literal statements,
/// holds the directive `d`.
pub open spec fn prologue_has(items: Seq<ItemModel>, d: Seq<char>) -> bool
    decreases items.len(),
{
    if items.len() == 0 {
        false
    } else {
        match items[0] {
            ItemModel::Directive(x) => x == d || prologue_has(items.drop_first(), d),
            _ => false,
        }
    }
}

/// A prologue with `"use client"` makes a client boundary, one with only
/// `"use server"` a server action module.
pub open spec fn classify(items: Seq<ItemModel>) -> Classification {
    if prologue_has(items, "use client"@) {
        Classification::ClientBoundary
    } else if prologue_has(items, "use server"@) {
        Classification::ServerActionModule
    } else {
        Classification::ServerModule
    }
}

/// The names that one item exports.
pub open spec fn item_exports(item: ItemModel) -> Seq<Seq<char>> {
    match item {
        ItemModel::ExportFn { name, .. } => seq![name],
        ItemModel::ExportDefault { .. } => seq!["default"@],
        ItemModel::ReExport { names, .. } => names,
        ItemModel::ClientReference { export, .. } => seq![export],
        ItemModel::ExportDecl { names, .. } => names,
        ItemModel::ServerAction { exports, .. } => exports,
        _ => Seq::empty(),
    }
}

/// The names that a module exports, in order.
pub open spec fn exported_names(items: Seq<ItemModel>) -> Seq<Seq<char>>
    decreases items.len(),
{
    if items.len() == 0 {
        Seq::empty()
    } else {
        exported_names(items.drop_last()) + item_exports(items.last())
    }
}

/// `import ... from "server-only"`.
pub open spec fn is_server_only_import(item: ItemModel) -> bool {
    item is Import && item->Import_0.src == "server-only"@
}

pub open spec fn has_wildcard_export(items: Seq<ItemModel>) -> bool
    decreases items.len(),
{
    if items.len() == 0 {
        false
    } else {
        has_wildcard_export(items.drop_last()) || items.last() is ReExportAll
    }
}

pub open spec fn has_server_only_import(items: Seq<ItemModel>) -> bool
    decreases items.len(),
{
    if items.len() == 0 {
        false
    } else {
        has_server_only_import(items.drop_last()) || is_server_only_import(items.last())
    }
}

/// One reference record per exported name.
pub open spec fn client_references(
    file: Seq<char>,
    target: BundleTarget,
    names: Seq<Seq<char>>,
) -> Seq<ItemModel> {
    names.map_values(
        |n: Seq<char>| ItemModel::ClientReference { file, export: n, target },
    )
}

/// An exported function, or an exported declaration of functions, becomes a
/// registered server action under the names it exports; other items stay.
pub open spec fn register_action(file: Seq<char>, item: ItemModel) -> ItemModel {
    match item {
        ItemModel::ExportFn { name, body } => ItemModel::ServerAction {
            file,
            exports: seq![name],
            body,
        },
        ItemModel::ExportDecl { names, body, is_function } => if is_function {
            ItemModel::ServerAction { file, exports: names, body }
        } else {
            item
        },
        _ => item,
    }
}

pub open spec fn register_actions(file: Seq<char>, items: Seq<ItemModel>) -> Seq<ItemModel> {
    items.map_values(|x: ItemModel| register_action(file, x))
}

/// The annotated module, or the boundary violation it holds.
pub open spec fn annotate(
    file: Seq<char>,
    is_server: bool,
    target: BundleTarget,
    app_dir_enabled: bool,
    items: Seq<ItemModel>,
) -> Result<Seq<ItemModel>, BoundaryError> {
    if !app_dir_enabled {
        Ok(items)
    } else {
        match classify(items) {
            Classification::ClientBoundary => if is_server {
                if has_wildcard_export(items) {
                    Err(BoundaryError::WildcardExportInClientBoundary)
                } else {
                    Ok(client_references(file, target, exported_names(items)))
                }
            } else if has_server_only_import(items) {
                Err(BoundaryError::ClientImportsServerOnly)
            } else {
                Ok(items)
            },
            Classification::ServerActionModule => Ok(register_actions(file, items)),
            Classification::ServerModule => if !is_server && target == BundleTarget::Client {
                Err(BoundaryError::UnmarkedModuleInClientBundle)
            } else {
                Ok(items)
            },
        }
    }
}

/// The classification of a module's items.
pub fn classify_items(items: &Vec<ModuleItem>) -> (r: Classification)
    ensures
        r == classify(view_items(items@)),
{
    let ghost v = view_items(items@);
    let use_client = String::from_str("use client");
    let use_server = String::from_str("use server");
    let mut client = false;
    let mut server = false;
    let mut i: usize = 0;
    assert(v.subrange(0, v.len() as int) =~= v);
    while i < items.len()
        invariant
            i <= items.len(),
            v == view_items(items@),
            use_client@ == "use client"@,
            use_server@ == "use server"@,
            prologue_has(v, "use client"@) == (client || prologue_has(
                v.subrange(i as int, v.len() as int),
                "use client"@,
            )),
            prologue_has(v, "use server"@) == (server || prologue_has(
                v.subrange(i as int, v.len() as int),
                "use server"@,
            )),
        decreases items.len() - i,
    {
        let ghost rest = v.subrange(i as int, v.len() as int);
        assert(rest.drop_first() =~= v.subrange(i + 1, v.len() as int));
        assert(rest[0] == items@[i as int]@);
        match &items[i] {
            ModuleItem::Directive(d) => {
                if *d == use_client {
                    client = true;
                }
                if *d == use_server {
                    server = true;
                }
            },
            _ => {
                i = items.len();
                assert(v.subrange(i as int, v.len() as int).len() == 0);
                continue;
            },
        }
        i = i + 1;
    }
    if client {
        Classification::ClientBoundary
    } else if server {
        Classification::ServerActionModule
    } else {
        Classification::ServerModule
    }
}

/// Whether one of the items re-exports `*`.
pub fn has_wildcard_reexport(items: &Vec<ModuleItem>) -> (r: bool)
    ensures
        r == has_wildcard_export(view_items(items@)),
{
    let ghost v = view_items(items@);
    let mut found = false;
    let mut i: usize = 0;
    while i < items.len()
        invariant
            i <= items.len(),
            v == view_items(items@),
            found == has_wildcard_export(v.take(i as int)),
        decreases items.len() - i,
    {
        assert(v.take(i + 1).drop_last() =~= v.take(i as int));
        assert(v.take(i + 1).last() == items@[i as int]@);
        if let ModuleItem::ReExportAll { .. } = &items[i] {
            found = true;
        }
        i = i + 1;
    }
    assert(v.take(i as int) == v);
    found
}

/// Appends copies of `names` to `r`.
pub fn push_all(r: &mut Vec<String>, names: &Vec<String>)
    ensures
        view_strings(final(r)@) == view_strings(old(r)@) + view_strings(names@),
{
    let ghost before = r@;
    let mut j: usize = 0;
    while j < names.len()
        invariant
            j <= names.len(),
            r@.len() == before.len() + j,
            forall|k: int| 0 <= k < before.len() ==> #[trigger] r@[k] == before[k],
            forall|k: int|
                before.len() <= k < before.len() + j ==> #[trigger] r@[k]@ == names@[k
                    - before.len()]@,
        decreases names.len() - j,
    {
        r.push(names[j].clone());
        j = j + 1;
    }
    assert(view_strings(r@) =~= view_strings(before) + view_strings(names@));
}

/// The names that a module's items export.
pub fn collect_exports(items: &Vec<ModuleItem>) -> (r: Vec<String>)
    ensures
        view_strings(r@) == exported_names(view_items(items@)),
{
    let ghost v = view_items(items@);
    let mut r: Vec<String> = Vec::new();
    let mut i: usize = 0;
    while i < items.len()
        invariant
            i <= items.len(),
            v == view_items(items@),
            view_strings(r@) == exported_names(v.take(i as int)),
        decreases items.len() - i,
    {
        assert(v.take(i + 1).drop_last() =~= v.take(i as int));
        assert(v.take(i + 1).last() == items@[i as int]@);
        let ghost before = r@;
        match &items[i] {
            ModuleItem::ExportFn { name, .. } => {
                r.push(name.clone());
            },
            ModuleItem::ExportDefault { .. } => {
                r.push(String::from_str("default"));
            },
            ModuleItem::ReExport { names, .. } => {
                push_all(&mut r, names);
            },
            ModuleItem::ExportDecl { names, .. } => {
                push_all(&mut r, names);
            },
            ModuleItem::ClientReference { export, .. } => {
                r.push(export.clone());
            },
            ModuleItem::ServerAction { exports, .. } => {
                push_all(&mut r, exports);
            },
            _ => {},
        }
        i = i + 1;
        assert(view_strings(r@) =~= view_strings(before) + item_exports(v.take(i as int).last()));
    }
    assert(v.take(i as int) == v);
    r
}

/// Whether one of the items imports `server-only`.
pub fn imports_server_only(items: &Vec<ModuleItem>) -> (r: bool)
    ensures
        r == has_server_only_import(view_items(items@)),
{
    let ghost v = view_items(items@);
    let server_only = String::from_str("server-only");
    let mut found = false;
    let mut i: usize = 0;
    while i < items.len()
        invariant
            i <= items.len(),
            v == view_items(items@),
            server_only@ == "server-only"@,
            found == has_server_only_import(v.take(i as int)),
        decreases items.len() - i,
    {
        assert(v.take(i + 1).drop_last() =~= v.take(i as int));
        assert(v.take(i + 1).last() == items@[i as int]@);
        match &items[i] {
            ModuleItem::Import(d) => {
                if d.src == server_only {
                    found = true;
                }
            },
            _ => {},
        }
        i = i + 1;
    }
    assert(v.take(i as int) == v);
    found
}

/// Rewrites a module for one side of the server/client boundary: a client
/// boundary compiled for the server becomes one reference record per export,
/// the exported functions of a server action module are registered, and the
/// violations of the boundary are reported.
pub fn server_components_annotate(
    program: &Program,
    file: &String,
    is_server: bool,
    target: BundleTarget,
    app_dir_enabled: bool,
) -> (r: Result<Program, BoundaryError>)
    ensures
        match (r, annotate(file@, is_server, target, app_dir_enabled, program@)) {
            (Ok(p), Ok(items)) => p@ == items,
            (Err(e), Err(f)) => e == f,
            _ => false,
        },
        !app_dir_enabled ==> r is Ok && r->Ok_0@ == program@,
{
    if !app_dir_enabled {
        return Ok(program.copy());
    }
    let ghost v = program@;
    match classify_items(&program.items) {
        Classification::ClientBoundary => {
            if is_server && has_wildcard_reexport(&program.items) {
                Err(BoundaryError::WildcardExportInClientBoundary)
            } else if is_server {
                let names = collect_exports(&program.items);
                let mut out: Vec<ModuleItem> = Vec::new();
                let mut i: usize = 0;
                while i < names.len()
                    invariant
                        i <= names.len(),
                        out@.len() == i,
                        forall|k: int| 0 <= k < i ==> #[trigger] out@[k]@ == (ItemModel::ClientReference {
                            file: file@,
                            export: names@[k]@,
                            target,
                        }),
                    decreases names.len() - i,
                {
                    out.push(
                        ModuleItem::ClientReference {
                            file: file.clone(),
                            export: names[i].clone(),
                            target,
                        },
                    );
                    i = i + 1;
                }
                assert(view_items(out@) =~= client_references(
                    file@,
                    target,
                    view_strings(names@),
                ));
                Ok(Program { items: out })
            } else if imports_server_only(&program.items) {
                Err(BoundaryError::ClientImportsServerOnly)
            } else {
                Ok(program.copy())
            }
        },
        Classification::ServerActionModule => {
            let mut out: Vec<ModuleItem> = Vec::new();
            let mut i: usize = 0;
            while i < program.items.len()
                invariant
                    i <= program.items.len(),
                    v == program@,
                    out@.len() == i,
                    forall|k: int|
                        0 <= k < i ==> #[trigger] out@[k]@ == register_action(file@, v[k]),
                decreases program.items.len() - i,
            {
                let item = match &program.items[i] {
                    ModuleItem::ExportFn { name, body } => {
                        let mut exports: Vec<String> = Vec::new();
                        exports.push(name.clone());
                        assert(view_strings(exports@) =~= seq![name@]);
                        ModuleItem::ServerAction { file: file.clone(), exports, body: body.clone() }
                    },
                    ModuleItem::ExportDecl { names, body, is_function } if *is_function => {
                        ModuleItem::ServerAction {
                            file: file.clone(),
                            exports: copy_strings(names),
                            body: body.clone(),
                        }
                    },
                    other => other.copy(),
                };
                out.push(item);
                i = i + 1;
            }
            assert(view_items(out@) =~= register_actions(file@, v));
            Ok(Program { items: out })
        },
        Classification::ServerModule => {
            if !is_server && target == BundleTarget::Client {
                Err(BoundaryError::UnmarkedModuleInClientBundle)
            } else {
                Ok(program.copy())
            }
        },
    }
}

} // verus!
