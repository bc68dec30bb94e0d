//! Properties that relate the transforms' results over all inputs.
use vstd::prelude::*;
use crate::ast::{BundleTarget, ImportModel, ItemModel, SpecifierModel};
use crate::server_components::{
    annotate, classify, client_references, exported_names, has_server_only_import,
    has_wildcard_export, is_server_only_import, item_exports, prologue_has, register_action, register_actions, BoundaryError,
    Classification,
};
use crate::named_import::{
    expand_named, is_rewritten, named_specifiers, other_specifiers, rewrite_import, rewrite_item,
    rewrite_items, submodule_import, submodule_path,
};

verus! {

proof fn lemma_named_are_named(s: Seq<SpecifierModel>)
    ensures
        forall|i: int| 0 <= i < named_specifiers(s).len() ==> #[trigger] named_specifiers(s)[i] is Named,
    decreases s.len(),
{
    if s.len() > 0 {
        lemma_named_are_named(s.drop_last());
    }
}

proof fn lemma_others_not_named(s: Seq<SpecifierModel>)
    ensures
        forall|i: int|
            0 <= i < other_specifiers(s).len() ==> !(#[trigger] other_specifiers(s)[i] is Named),
    decreases s.len(),
{
    if s.len() > 0 {
        lemma_others_not_named(s.drop_last());
    }
}

proof fn lemma_no_named(s: Seq<SpecifierModel>)
    requires
        forall|i: int| 0 <= i < s.len() ==> !(#[trigger] s[i] is Named),
    ensures
        named_specifiers(s).len() == 0,
    decreases s.len(),
{
    if s.len() > 0 {
        lemma_no_named(s.drop_last());
    }
}

/// An import from a configured package with named bindings becomes one
/// default import per named binding, from `"<package>/<imported>"` under the
/// binding's local name, in the bindings' order, at the end of what the
/// declaration is replaced by; before them, at most one declaration keeps the
/// default and namespace bindings.
pub proof fn lemma_named_bindings_expanded(packages: Seq<Seq<char>>, d: ImportModel)
    requires
        packages.contains(d.src),
    ensures
        ({
            let out = rewrite_import(packages, d);
            let named = named_specifiers(d.specifiers);
            let n = named.len();
            &&& n > 0 ==> out.len() == n || (out.len() == n + 1 && out[0] == ItemModel::Import(
                ImportModel { src: d.src, specifiers: other_specifiers(d.specifiers) },
            ))
            &&& n > 0 ==> forall|i: int|
                0 <= i < n ==> #[trigger] out[out.len() - n + i] == ItemModel::Import(
                    ImportModel {
                        src: submodule_path(d.src, named[i]->Named_imported),
                        specifiers: seq![SpecifierModel::Default { local: named[i]->Named_local }],
                    },
                )
        }),
{
    lemma_named_are_named(d.specifiers);
    let named = named_specifiers(d.specifiers);
    let n = named.len();
    if n > 0 {
        let out = rewrite_import(packages, d);
        let e = expand_named(d.src, d.specifiers);
        assert forall|i: int| 0 <= i < n implies #[trigger] out[out.len() - n + i]
            == ItemModel::Import(
            ImportModel {
                src: submodule_path(d.src, named[i]->Named_imported),
                specifiers: seq![SpecifierModel::Default { local: named[i]->Named_local }],
            },
        ) by {
            assert(out[out.len() - n + i] == e[i]);
            assert(named[i] is Named);
        }
    }
}

/// Imports from packages that are not configured, and imports without named
/// bindings, are kept as they are.
pub proof fn lemma_other_imports_unchanged(packages: Seq<Seq<char>>, d: ImportModel)
    requires
        !packages.contains(d.src) || forall|i: int|
            0 <= i < d.specifiers.len() ==> !(#[trigger] d.specifiers[i] is Named),
    ensures
        rewrite_import(packages, d) == seq![ItemModel::Import(d)],
{
    if packages.contains(d.src) {
        lemma_no_named(d.specifiers);
    }
}

/// No import of `s` is split by the rewriter.
pub open spec fn settled(packages: Seq<Seq<char>>, s: Seq<ItemModel>) -> bool {
    forall|i: int|
        0 <= i < s.len() ==> !(#[trigger] s[i] is Import && is_rewritten(packages, s[i]->Import_0))
}

proof fn lemma_settled_unchanged(packages: Seq<Seq<char>>, s: Seq<ItemModel>)
    requires
        settled(packages, s),
    ensures
        rewrite_items(packages, s) == s,
    decreases s.len(),
{
    if s.len() > 0 {
        assert(s[s.len() - 1] == s.last());
        lemma_settled_unchanged(packages, s.drop_last());
        assert(rewrite_items(packages, s) =~= s);
    }
}

proof fn lemma_rewrite_item_settled(packages: Seq<Seq<char>>, x: ItemModel)
    ensures
        settled(packages, rewrite_item(packages, x)),
{
    if let ItemModel::Import(d) = x {
        if is_rewritten(packages, d) {
            let kept = other_specifiers(d.specifiers);
            lemma_others_not_named(d.specifiers);
            lemma_no_named(kept);
            lemma_named_are_named(d.specifiers);
            let named = named_specifiers(d.specifiers);
            let e = expand_named(d.src, d.specifiers);
            assert forall|i: int| 0 <= i < e.len() implies !(#[trigger] e[i] is Import
                && is_rewritten(packages, e[i]->Import_0)) by {
                assert(named[i] is Named);
                let one = seq![SpecifierModel::Default { local: named[i]->Named_local }];
                assert(one.drop_last() =~= Seq::<SpecifierModel>::empty());
                assert(named_specifiers(one.drop_last()).len() == 0);
                assert(!(one.last() is Named));
                assert(e[i]->Import_0.specifiers == one);
                assert(named_specifiers(one).len() == 0);
            }
            let out = rewrite_import(packages, d);
            let pre = if kept.len() > 0 {
                seq![ItemModel::Import(ImportModel { src: d.src, specifiers: kept })]
            } else {
                Seq::<ItemModel>::empty()
            };
            assert(out == pre + e);
            assert forall|i: int| 0 <= i < out.len() implies !(#[trigger] out[i] is Import
                && is_rewritten(packages, out[i]->Import_0)) by {
                if i >= pre.len() {
                    assert(out[i] == e[i - pre.len()]);
                }
            }
        }
    }
}

proof fn lemma_rewrite_settled(packages: Seq<Seq<char>>, items: Seq<ItemModel>)
    ensures
        settled(packages, rewrite_items(packages, items)),
    decreases items.len(),
{
    if items.len() > 0 {
        lemma_rewrite_settled(packages, items.drop_last());
        lemma_rewrite_item_settled(packages, items.last());
        let a = rewrite_items(packages, items.drop_last());
        let b = rewrite_item(packages, items.last());
        let out = rewrite_items(packages, items);
        assert(out == a + b);
        assert forall|i: int| 0 <= i < out.len() implies !(#[trigger] out[i] is Import
            && is_rewritten(packages, out[i]->Import_0)) by {
            if i < a.len() {
                assert(out[i] == a[i]);
            } else {
                assert(out[i] == b[i - a.len()]);
            }
        }
    }
}

/// Rewriting a module a second time with the same packages changes nothing.
pub proof fn lemma_rewrite_idempotent(packages: Seq<Seq<char>>, items: Seq<ItemModel>)
    ensures
        rewrite_items(packages, rewrite_items(packages, items)) == rewrite_items(packages, items),
{
    lemma_rewrite_settled(packages, items);
    lemma_settled_unchanged(packages, rewrite_items(packages, items));
}

proof fn lemma_rewrite_concat(packages: Seq<Seq<char>>, a: Seq<ItemModel>, b: Seq<ItemModel>)
    ensures
        rewrite_items(packages, a + b) == rewrite_items(packages, a) + rewrite_items(packages, b),
    decreases b.len(),
{
    if b.len() == 0 {
        assert(a + b =~= a);
        assert(rewrite_items(packages, a) + rewrite_items(packages, b) =~= rewrite_items(
            packages,
            a,
        ));
    } else {
        assert((a + b).drop_last() =~= a + b.drop_last());
        assert((a + b).last() == b.last());
        lemma_rewrite_concat(packages, a, b.drop_last());
        assert(rewrite_items(packages, a + b) =~= rewrite_items(packages, a) + rewrite_items(
            packages,
            b,
        ));
    }
}

proof fn lemma_rewrite_single(packages: Seq<Seq<char>>, x: ItemModel)
    ensures
        rewrite_items(packages, seq![x]) == rewrite_item(packages, x),
{
    let e = Seq::<ItemModel>::empty();
    assert(seq![x].drop_last() =~= e);
    assert(seq![x].last() == x);
    assert(rewrite_items(packages, e) == e);
    assert(rewrite_items(packages, seq![x]) =~= rewrite_item(packages, x));
}

proof fn lemma_rewrite_front(packages: Seq<Seq<char>>, items: Seq<ItemModel>)
    requires
        items.len() > 0,
    ensures
        rewrite_items(packages, items) == rewrite_item(packages, items[0]) + rewrite_items(
            packages,
            items.drop_first(),
        ),
{
    assert(items =~= seq![items[0]] + items.drop_first());
    lemma_rewrite_concat(packages, seq![items[0]], items.drop_first());
    lemma_rewrite_single(packages, items[0]);
}

proof fn lemma_submodule_not_server_only(package: Seq<char>, name: Seq<char>)
    ensures
        submodule_path(package, name) != "server-only"@,
{
    reveal_strlit("server-only");
    let s = submodule_path(package, name);
    assert(s[package.len() as int] == '/');
    if s == "server-only"@ {
        let lit = "server-only"@;
        assert(lit =~= seq!['s', 'e', 'r', 'v', 'e', 'r', '-', 'o', 'n', 'l', 'y']);
        assert(lit[package.len() as int] != '/');
    }
}

/// What an import becomes: imports only, none of `server-only` unless it is
/// kept as it was, and the first of them an import.
proof fn lemma_rewrite_import_shape(packages: Seq<Seq<char>>, d: ImportModel)
    requires
        !packages.contains("server-only"@),
    ensures
        rewrite_import(packages, d).len() > 0,
        forall|i: int|
            0 <= i < rewrite_import(packages, d).len() ==> #[trigger] rewrite_import(
                packages,
                d,
            )[i] is Import,
        is_rewritten(packages, d) ==> forall|i: int|
            0 <= i < rewrite_import(packages, d).len() ==> !is_server_only_import(
                #[trigger] rewrite_import(packages, d)[i],
            ),
        !is_rewritten(packages, d) ==> rewrite_import(packages, d) == seq![ItemModel::Import(d)],
{
    if is_rewritten(packages, d) {
        let kept = other_specifiers(d.specifiers);
        lemma_named_are_named(d.specifiers);
        let named = named_specifiers(d.specifiers);
        let e = expand_named(d.src, d.specifiers);
        let pre = if kept.len() > 0 {
            seq![ItemModel::Import(ImportModel { src: d.src, specifiers: kept })]
        } else {
            Seq::<ItemModel>::empty()
        };
        let out = rewrite_import(packages, d);
        assert(out == pre + e);
        assert forall|i: int| 0 <= i < out.len() implies #[trigger] out[i] is Import
            && !is_server_only_import(out[i]) by {
            if i < pre.len() {
                assert(out[i] == pre[i]);
            } else {
                let k = i - pre.len();
                assert(out[i] == e[k]);
                assert(named[k] is Named);
                lemma_submodule_not_server_only(d.src, named[k]->Named_imported);
            }
        }
    }
}

proof fn lemma_imports_only(file: Seq<char>, s: Seq<ItemModel>)
    requires
        forall|i: int| 0 <= i < s.len() ==> #[trigger] s[i] is Import,
    ensures
        exported_names(s) == Seq::<Seq<char>>::empty(),
        register_actions(file, s) == s,
        !has_wildcard_export(s),
    decreases s.len(),
{
    if s.len() > 0 {
        assert(s[s.len() - 1] == s.last());
        lemma_imports_only(file, s.drop_last());
        assert(exported_names(s) =~= Seq::<Seq<char>>::empty());
    }
    assert(register_actions(file, s) =~= s);
}

proof fn lemma_exports_concat(a: Seq<ItemModel>, b: Seq<ItemModel>)
    ensures
        exported_names(a + b) == exported_names(a) + exported_names(b),
    decreases b.len(),
{
    if b.len() == 0 {
        assert(a + b =~= a);
        assert(exported_names(a) + exported_names(b) =~= exported_names(a));
    } else {
        assert((a + b).drop_last() =~= a + b.drop_last());
        assert((a + b).last() == b.last());
        lemma_exports_concat(a, b.drop_last());
        assert(exported_names(a + b) =~= exported_names(a) + exported_names(b));
    }
}

proof fn lemma_server_only_concat(a: Seq<ItemModel>, b: Seq<ItemModel>)
    ensures
        has_server_only_import(a + b) == (has_server_only_import(a) || has_server_only_import(b)),
        has_wildcard_export(a + b) == (has_wildcard_export(a) || has_wildcard_export(b)),
    decreases b.len(),
{
    if b.len() == 0 {
        assert(a + b =~= a);
    } else {
        assert((a + b).drop_last() =~= a + b.drop_last());
        assert((a + b).last() == b.last());
        lemma_server_only_concat(a, b.drop_last());
    }
}

proof fn lemma_no_server_only(s: Seq<ItemModel>)
    requires
        forall|i: int| 0 <= i < s.len() ==> !is_server_only_import(#[trigger] s[i]),
    ensures
        !has_server_only_import(s),
    decreases s.len(),
{
    if s.len() > 0 {
        assert(s[s.len() - 1] == s.last());
        lemma_no_server_only(s.drop_last());
    }
}

proof fn lemma_single(x: ItemModel)
    ensures
        exported_names(seq![x]) == item_exports(x),
        has_server_only_import(seq![x]) == is_server_only_import(x),
        has_wildcard_export(seq![x]) == x is ReExportAll,
{
    let e = Seq::<ItemModel>::empty();
    assert(seq![x].drop_last() =~= e);
    assert(seq![x].last() == x);
    assert(exported_names(e) == Seq::<Seq<char>>::empty());
    assert(!has_server_only_import(e));
    assert(!has_wildcard_export(e));
    assert(exported_names(seq![x]) =~= item_exports(x));
}

proof fn lemma_prologue_rewrite(packages: Seq<Seq<char>>, items: Seq<ItemModel>, d: Seq<char>)
    requires
        !packages.contains("server-only"@),
    ensures
        prologue_has(rewrite_items(packages, items), d) == prologue_has(items, d),
    decreases items.len(),
{
    if items.len() == 0 {
        return;
    }
    lemma_rewrite_front(packages, items);
    let head = rewrite_item(packages, items[0]);
    let out = rewrite_items(packages, items);
    match items[0] {
        ItemModel::Import(d0) => {
            lemma_rewrite_import_shape(packages, d0);
            assert(out[0] == head[0]);
        },
        ItemModel::Directive(_) => {
            assert(out.drop_first() =~= rewrite_items(packages, items.drop_first()));
            lemma_prologue_rewrite(packages, items.drop_first(), d);
        },
        _ => {
            assert(out[0] == items[0]);
        },
    }
}

proof fn lemma_classify_rewrite(packages: Seq<Seq<char>>, items: Seq<ItemModel>)
    requires
        !packages.contains("server-only"@),
    ensures
        classify(rewrite_items(packages, items)) == classify(items),
{
    lemma_prologue_rewrite(packages, items, "use client"@);
    lemma_prologue_rewrite(packages, items, "use server"@);
}

proof fn lemma_exports_and_server_only_rewrite(packages: Seq<Seq<char>>, items: Seq<ItemModel>)
    requires
        !packages.contains("server-only"@),
    ensures
        exported_names(rewrite_items(packages, items)) == exported_names(items),
        has_server_only_import(rewrite_items(packages, items)) == has_server_only_import(items),
        has_wildcard_export(rewrite_items(packages, items)) == has_wildcard_export(items),
    decreases items.len(),
{
    if items.len() > 0 {
        lemma_exports_and_server_only_rewrite(packages, items.drop_last());
        let a = rewrite_items(packages, items.drop_last());
        let b = rewrite_item(packages, items.last());
        lemma_exports_concat(a, b);
        lemma_server_only_concat(a, b);
        lemma_single(items.last());
        match items.last() {
            ItemModel::Import(d) => {
                lemma_rewrite_import_shape(packages, d);
                lemma_imports_only(Seq::empty(), b);
                if is_rewritten(packages, d) {
                    lemma_no_server_only(b);
                }
            },
            _ => {},
        }
    }
}

proof fn lemma_actions_rewrite(packages: Seq<Seq<char>>, file: Seq<char>, items: Seq<ItemModel>)
    requires
        !packages.contains("server-only"@),
    ensures
        register_actions(file, rewrite_items(packages, items)) == rewrite_items(
            packages,
            register_actions(file, items),
        ),
    decreases items.len(),
{
    if items.len() > 0 {
        lemma_actions_rewrite(packages, file, items.drop_last());
        let a = rewrite_items(packages, items.drop_last());
        let b = rewrite_item(packages, items.last());
        let r = register_actions(file, items);
        assert(r.drop_last() =~= register_actions(file, items.drop_last()));
        assert(r.last() == register_action(file, items.last()));
        assert(register_actions(file, a + b) =~= register_actions(file, a) + register_actions(
            file,
            b,
        ));
        match items.last() {
            ItemModel::Import(d) => {
                lemma_rewrite_import_shape(packages, d);
                lemma_imports_only(file, b);
            },
            _ => {
                assert(register_actions(file, b) =~= seq![register_action(file, items.last())]);
            },
        }
    }
}

/// Rewriting named imports and annotating the server/client boundary commute
/// wherever the annotator's own import, `server-only`, is not a configured
/// package: both orders give the same module, or the same violation.
pub proof fn lemma_rewrite_annotate_commute(
    packages: Seq<Seq<char>>,
    file: Seq<char>,
    is_server: bool,
    target: BundleTarget,
    app_dir_enabled: bool,
    items: Seq<ItemModel>,
)
    requires
        !packages.contains("server-only"@),
    ensures
        match annotate(file, is_server, target, app_dir_enabled, items) {
            Ok(out) => annotate(
                file,
                is_server,
                target,
                app_dir_enabled,
                rewrite_items(packages, items),
            ) == Ok::<Seq<ItemModel>, BoundaryError>(rewrite_items(packages, out)),
            Err(e) => annotate(
                file,
                is_server,
                target,
                app_dir_enabled,
                rewrite_items(packages, items),
            ) == Err::<Seq<ItemModel>, BoundaryError>(e),
        },
{
    lemma_classify_rewrite(packages, items);
    lemma_exports_and_server_only_rewrite(packages, items);
    lemma_actions_rewrite(packages, file, items);
    let refs = client_references(file, target, exported_names(items));
    assert forall|i: int| 0 <= i < refs.len() implies !(#[trigger] refs[i] is Import
        && is_rewritten(packages, refs[i]->Import_0)) by {}
    lemma_settled_unchanged(packages, refs);
}

/// With app-directory conventions off, the annotator returns every module as
/// it is.
pub proof fn lemma_annotate_disabled_identity(
    file: Seq<char>,
    is_server: bool,
    target: BundleTarget,
    items: Seq<ItemModel>,
)
    ensures
        annotate(file, is_server, target, false, items) == Ok::<Seq<ItemModel>, BoundaryError>(items),
{
}

proof fn lemma_exported_fn_named(items: Seq<ItemModel>, k: int)
    requires
        0 <= k < items.len(),
        items[k] is ExportFn,
    ensures
        exported_names(items).contains(items[k]->ExportFn_name),
    decreases items.len(),
{
    let a = exported_names(items.drop_last());
    let b = item_exports(items.last());
    if k == items.len() - 1 {
        assert(exported_names(items)[a.len() as int] == items[k]->ExportFn_name);
    } else {
        assert(items.drop_last()[k] == items[k]);
        lemma_exported_fn_named(items.drop_last(), k);
        let j = choose|j: int| 0 <= j < a.len() && a[j] == items[k]->ExportFn_name;
        assert(exported_names(items)[j] == a[j]);
    }
}

/// A client boundary without wildcard re-exports, compiled for the server,
/// keeps none of its items: it becomes one reference record per exported
/// name, for the file, the name and the bundle target, so that each exported
/// function has its record.
pub proof fn lemma_client_boundary_replaced_on_server(
    file: Seq<char>,
    target: BundleTarget,
    items: Seq<ItemModel>,
)
    requires
        items.len() > 0,
        items[0] == ItemModel::Directive("use client"@),
        !has_wildcard_export(items),
    ensures
        ({
            let r = annotate(file, true, target, true, items);
            &&& r is Ok
            &&& r->Ok_0 == client_references(file, target, exported_names(items))
            &&& forall|i: int|
                0 <= i < r->Ok_0.len() ==> #[trigger] r->Ok_0[i] is ClientReference
            &&& forall|k: int|
                0 <= k < items.len() && #[trigger] items[k] is ExportFn ==> r->Ok_0.contains(
                    ItemModel::ClientReference { file, export: items[k]->ExportFn_name, target },
                )
        }),
{
    let names = exported_names(items);
    let refs = client_references(file, target, names);
    assert forall|k: int| 0 <= k < items.len() && #[trigger] items[k] is ExportFn implies refs.contains(
        ItemModel::ClientReference { file, export: items[k]->ExportFn_name, target },
    ) by {
        lemma_exported_fn_named(items, k);
        let j = choose|j: int| 0 <= j < names.len() && names[j] == items[k]->ExportFn_name;
        assert(refs[j] == ItemModel::ClientReference {
            file,
            export: items[k]->ExportFn_name,
            target,
        });
    }
}

/// A module compiled for the server whose first item is no directive comes
/// back as it is, whatever its bundle target.
pub proof fn lemma_unmarked_module_kept_on_server(
    file: Seq<char>,
    target: BundleTarget,
    items: Seq<ItemModel>,
)
    requires
        items.len() == 0 || !(items[0] is Directive),
    ensures
        annotate(file, true, target, true, items) == Ok::<Seq<ItemModel>, BoundaryError>(items),
{
    assert(classify(items) == Classification::ServerModule);
}

} // verus!
