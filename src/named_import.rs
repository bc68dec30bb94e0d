//! Rewrites named imports from configured packages into one default import
//! per binding, from the binding's own submodule.
use vstd::prelude::*;
use vstd::string::*;
use crate::ast::{
    view_items, view_specifiers, view_strings, ImportDecl, ImportModel, ImportSpecifier,
    ItemModel, ModuleItem, Program, SpecifierModel,
};
use crate::config::NamedImportConfig;

verus! {

/// `"<package>/<name>"`.
pub open spec fn submodule_path(package: Seq<char>, name: Seq<char>) -> Seq<char> {
    package + seq!['/'] + name
}

/// The named bindings of a list, in their order.
pub open spec fn named_specifiers(s: Seq<SpecifierModel>) -> Seq<SpecifierModel>
    decreases s.len(),
{
    if s.len() == 0 {
        s
    } else if s.last() is Named {
        named_specifiers(s.drop_last()).push(s.last())
    } else {
        named_specifiers(s.drop_last())
    }
}

/// The default and namespace bindings of a list, in their order.
pub open spec fn other_specifiers(s: Seq<SpecifierModel>) -> Seq<SpecifierModel>
    decreases s.len(),
{
    if s.len() == 0 {
        s
    } else if s.last() is Named {
        other_specifiers(s.drop_last())
    } else {
        other_specifiers(s.drop_last()).push(s.last())
    }
}

/// The import that a named binding `{ imported as local }` from `src` becomes:
/// `import local from "src/imported"`.
pub open spec fn submodule_import(src: Seq<char>, n: SpecifierModel) -> ItemModel {
    match n {
        SpecifierModel::Named { imported, local } => ItemModel::Import(
            ImportModel {
                src: submodule_path(src, imported),
                specifiers: seq![SpecifierModel::Default { local }],
            },
        ),
        _ => ItemModel::Import(ImportModel { src, specifiers: seq![n] }),
    }
}

/// One submodule import per named binding, in the bindings' order.
pub open spec fn expand_named(src: Seq<char>, s: Seq<SpecifierModel>) -> Seq<ItemModel> {
    named_specifiers(s).map_values(|n: SpecifierModel| submodule_import(src, n))
}

/// Whether the rewriter splits this declaration.
pub open spec fn is_rewritten(packages: Seq<Seq<char>>, d: ImportModel) -> bool {
    packages.contains(d.src) && named_specifiers(d.specifiers).len() > 0
}

/// What one import declaration becomes: where its source is a configured
/// package and it has named bindings, its default and namespace bindings stay
/// in a declaration of their own (if it has any), followed by one submodule
/// import per named binding; otherwise it is kept as it is.
pub open spec fn rewrite_import(packages: Seq<Seq<char>>, d: ImportModel) -> Seq<ItemModel> {
    if is_rewritten(packages, d) {
        let kept = other_specifiers(d.specifiers);
        (if kept.len() > 0 {
            seq![ItemModel::Import(ImportModel { src: d.src, specifiers: kept })]
        } else {
            Seq::<ItemModel>::empty()
        }) + expand_named(d.src, d.specifiers)
    } else {
        seq![ItemModel::Import(d)]
    }
}

/// What one item becomes; items other than imports are kept.
pub open spec fn rewrite_item(packages: Seq<Seq<char>>, item: ItemModel) -> Seq<ItemModel> {
    match item {
        ItemModel::Import(d) => rewrite_import(packages, d),
        _ => seq![item],
    }
}

/// The rewritten module: each item replaced, in place, by what it becomes.
pub open spec fn rewrite_items(packages: Seq<Seq<char>>, items: Seq<ItemModel>) -> Seq<ItemModel>
    decreases items.len(),
{
    if items.len() == 0 {
        items
    } else {
        rewrite_items(packages, items.drop_last()) + rewrite_item(packages, items.last())
    }
}

/// Whether `s` is one of `v`.
pub fn contains_string(v: &Vec<String>, s: &String) -> (r: bool)
    ensures
        r == view_strings(v@).contains(s@),
{
    let mut i: usize = 0;
    while i < v.len()
        invariant
            i <= v.len(),
            forall|j: int| 0 <= j < i ==> #[trigger] v@[j]@ != s@,
        decreases v.len() - i,
    {
        if v[i] == *s {
            assert(view_strings(v@)[i as int] == s@);
            return true;
        }
        i = i + 1;
    }
    proof {
        if view_strings(v@).contains(s@) {
            let k = choose|k: int| 0 <= k < view_strings(v@).len() && view_strings(v@)[k] == s@;
            assert(v@[k]@ == s@);
        }
    }
    false
}

proof fn lemma_take_last<A>(s: Seq<A>, i: int)
    requires
        0 <= i < s.len(),
    ensures
        s.take(i + 1).drop_last() == s.take(i),
        s.take(i + 1).last() == s[i],
{
    assert(s.take(i + 1).drop_last() =~= s.take(i));
}

/// The items that one import declaration becomes.
pub fn rewrite_import_decl(packages: &Vec<String>, d: &ImportDecl) -> (r: Vec<ModuleItem>)
    ensures
        view_items(r@) == rewrite_import(view_strings(packages@), d@),
{
    if !contains_string(packages, &d.src) {
        let mut r: Vec<ModuleItem> = Vec::new();
        r.push(ModuleItem::Import(d.copy()));
        assert(view_items(r@) =~= rewrite_import(view_strings(packages@), d@));
        return r;
    }
    let ghost vs = view_specifiers(d.specifiers@);
    let mut kept: Vec<ImportSpecifier> = Vec::new();
    let mut expanded: Vec<ModuleItem> = Vec::new();
    let mut i: usize = 0;
    while i < d.specifiers.len()
        invariant
            i <= d.specifiers.len(),
            vs == view_specifiers(d.specifiers@),
            view_specifiers(kept@) == other_specifiers(vs.take(i as int)),
            view_items(expanded@) == expand_named(d.src@, vs.take(i as int)),
        decreases d.specifiers.len() - i,
    {
        proof {
            lemma_take_last(vs, i as int);
            assert(vs[i as int] == d.specifiers@[i as int]@);
        }
        let ghost before = expanded@;
        match &d.specifiers[i] {
            ImportSpecifier::Named { imported, local } => {
                let mut path = d.src.clone();
                path.append("/");
                path.append(imported.as_str());
                let mut specifiers: Vec<ImportSpecifier> = Vec::new();
                specifiers.push(ImportSpecifier::Default { local: local.clone() });
                let item = ModuleItem::Import(ImportDecl { src: path, specifiers });
                proof {
                    reveal_strlit("/");
                    assert("/"@ =~= seq!['/']);
                    assert(vs[i as int] == d.specifiers@[i as int]@);
                    assert(path@ =~= submodule_path(d.src@, imported@));
                    assert(view_specifiers(specifiers@) =~= seq![
                        SpecifierModel::Default { local: local@ },
                    ]);
                    assert(item@ == submodule_import(d.src@, vs[i as int]));
                }
                expanded.push(item);
                assert(view_items(expanded@) =~= view_items(before).push(item@));
            },
            other => {
                kept.push(other.copy());
            },
        }
        i = i + 1;
        assert(view_specifiers(kept@) =~= other_specifiers(vs.take(i as int)));
        assert(view_items(expanded@) =~= expand_named(d.src@, vs.take(i as int)));
    }
    assert(vs.take(i as int) == vs);
    let mut r: Vec<ModuleItem> = Vec::new();
    if expanded.len() == 0 {
        r.push(ModuleItem::Import(d.copy()));
        assert(view_items(r@) =~= rewrite_import(view_strings(packages@), d@));
        return r;
    }
    if kept.len() > 0 {
        r.push(ModuleItem::Import(ImportDecl { src: d.src.clone(), specifiers: kept }));
    }
    r.append(&mut expanded);
    assert(view_items(r@) =~= rewrite_import(view_strings(packages@), d@));
    r
}

/// Expands the named imports of configured packages in a module.
pub fn named_import_transform(config: &NamedImportConfig, program: &Program) -> (r: Program)
    ensures
        r@ == rewrite_items(config.packages_view(), program@),
{
    let ghost items = program@;
    let mut out: Vec<ModuleItem> = Vec::new();
    let mut i: usize = 0;
    while i < program.items.len()
        invariant
            i <= program.items.len(),
            items == program@,
            view_items(out@) == rewrite_items(config.packages_view(), items.take(i as int)),
        decreases program.items.len() - i,
    {
        proof {
            lemma_take_last(items, i as int);
        }
        let mut next: Vec<ModuleItem> = match &program.items[i] {
            ModuleItem::Import(d) => rewrite_import_decl(&config.packages, d),
            other => {
                let mut v: Vec<ModuleItem> = Vec::new();
                v.push(other.copy());
                assert(view_items(v@) =~= seq![other@]);
                v
            },
        };
        let ghost before = out@;
        out.append(&mut next);
        i = i + 1;
        assert(view_items(out@) =~= view_items(before) + rewrite_item(
            config.packages_view(),
            items[i - 1],
        ));
    }
    assert(items.take(i as int) == items);
    Program { items: out }
}

} // verus!
