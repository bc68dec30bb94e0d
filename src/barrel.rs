//! Trims the re-exports of a barrel module to the names its consumers use.
use vstd::prelude::*;
use crate::ast::{copy_strings, view_items, view_strings, ItemModel, ModuleItem, Program};
use crate::named_import::contains_string;
use crate::server_components::{collect_exports, exported_names};

verus! {

/// Whether `export * from "x"` is expanded into the consumed names.
#[derive(PartialEq, Eq, Structural, Clone, Copy, Debug)]
pub struct OptimizeBarrelConfig {
    pub wildcard: bool,
}

/// The names of `names` that some consumer uses, in their order.
pub open spec fn consumed_names(consumers: Seq<Seq<char>>, names: Seq<Seq<char>>) -> Seq<Seq<char>>
    decreases names.len(),
{
    if names.len() == 0 {
        names
    } else if consumers.contains(names.last()) {
        consumed_names(consumers, names.drop_last()).push(names.last())
    } else {
        consumed_names(consumers, names.drop_last())
    }
}

/// The names in their first order, each once.
pub open spec fn distinct_names(s: Seq<Seq<char>>) -> Seq<Seq<char>>
    decreases s.len(),
{
    if s.len() == 0 {
        s
    } else if distinct_names(s.drop_last()).contains(s.last()) {
        distinct_names(s.drop_last())
    } else {
        distinct_names(s.drop_last()).push(s.last())
    }
}

/// The names of `names` that `exported` does not hold, in their order.
pub open spec fn unexported(names: Seq<Seq<char>>, exported: Seq<Seq<char>>) -> Seq<Seq<char>>
    decreases names.len(),
{
    if names.len() == 0 {
        names
    } else if exported.contains(names.last()) {
        unexported(names.drop_last(), exported)
    } else {
        unexported(names.drop_last(), exported).push(names.last())
    }
}

/// How many wildcard re-exports a module holds.
pub open spec fn wildcard_count(items: Seq<ItemModel>) -> nat
    decreases items.len(),
{
    if items.len() == 0 {
        0
    } else {
        wildcard_count(items.drop_last()) + if items.last() is ReExportAll {
            1nat
        } else {
            0nat
        }
    }
}

/// The list that replaces a wildcard re-export, where that is safe: only when
/// `wildcard` is set and the module has a single wildcard re-export, so that
/// the consumed names can come from no other wildcard. The list holds each
/// consumed name once, leaving out those the module exports otherwise.
pub open spec fn wildcard_expansion(
    consumers: Seq<Seq<char>>,
    wildcard: bool,
    items: Seq<ItemModel>,
) -> Option<Seq<Seq<char>>> {
    if wildcard && wildcard_count(items) == 1 {
        Some(unexported(distinct_names(consumers), exported_names(items)))
    } else {
        None
    }
}

/// What one item becomes: a re-export list keeps its consumed names and goes
/// when it had names and none of them is left (an empty list stays, as it
/// still loads its module); a wildcard re-export becomes `expansion` where
/// there is one; anything else stays.
pub open spec fn optimize_item(
    consumers: Seq<Seq<char>>,
    expansion: Option<Seq<Seq<char>>>,
    item: ItemModel,
) -> Seq<ItemModel> {
    match item {
        ItemModel::ReExport { src, names } => {
            let kept = consumed_names(consumers, names);
            if kept.len() == 0 && names.len() > 0 {
                Seq::empty()
            } else {
                seq![ItemModel::ReExport { src, names: kept }]
            }
        },
        ItemModel::ReExportAll { src } => match expansion {
            Some(names) => seq![ItemModel::ReExport { src, names }],
            None => seq![item],
        },
        _ => seq![item],
    }
}

pub open spec fn optimize_items(
    consumers: Seq<Seq<char>>,
    expansion: Option<Seq<Seq<char>>>,
    items: Seq<ItemModel>,
) -> Seq<ItemModel>
    decreases items.len(),
{
    if items.len() == 0 {
        items
    } else {
        optimize_items(consumers, expansion, items.drop_last()) + optimize_item(
            consumers,
            expansion,
            items.last(),
        )
    }
}

/// The optimised barrel; an empty consumer set leaves the module as it is.
pub open spec fn optimize_barrel_items(
    consumers: Seq<Seq<char>>,
    wildcard: bool,
    items: Seq<ItemModel>,
) -> Seq<ItemModel> {
    if consumers.len() == 0 {
        items
    } else {
        optimize_items(consumers, wildcard_expansion(consumers, wildcard, items), items)
    }
}

/// How many wildcard re-exports the items hold.
pub fn count_wildcards(items: &Vec<ModuleItem>) -> (r: usize)
    ensures
        r == wildcard_count(view_items(items@)),
{
    let ghost v = view_items(items@);
    let mut n: usize = 0;
    let mut i: usize = 0;
    while i < items.len()
        invariant
            i <= items.len(),
            v == view_items(items@),
            n == wildcard_count(v.take(i as int)),
            n <= i,
        decreases items.len() - i,
    {
        assert(v.take(i + 1).drop_last() =~= v.take(i as int));
        assert(v.take(i + 1).last() == items@[i as int]@);
        if let ModuleItem::ReExportAll { .. } = &items[i] {
            n = n + 1;
        }
        i = i + 1;
    }
    assert(v.take(i as int) == v);
    n
}

/// The names of `names` that `exported` does not hold.
pub fn filter_unexported(names: &Vec<String>, exported: &Vec<String>) -> (r: Vec<String>)
    ensures
        view_strings(r@) == unexported(view_strings(names@), view_strings(exported@)),
{
    let ghost n = view_strings(names@);
    let mut r: Vec<String> = Vec::new();
    let mut i: usize = 0;
    while i < names.len()
        invariant
            i <= names.len(),
            n == view_strings(names@),
            view_strings(r@) == unexported(n.take(i as int), view_strings(exported@)),
        decreases names.len() - i,
    {
        assert(n.take(i + 1).drop_last() =~= n.take(i as int));
        assert(n.take(i + 1).last() == names@[i as int]@);
        let ghost before = r@;
        if !contains_string(exported, &names[i]) {
            r.push(names[i].clone());
            assert(view_strings(r@) =~= view_strings(before).push(names@[i as int]@));
        }
        i = i + 1;
    }
    assert(n.take(i as int) == n);
    r
}

pub open spec fn view_expansion(e: Option<Vec<String>>) -> Option<Seq<Seq<char>>> {
    match e {
        Some(v) => Some(view_strings(v@)),
        None => None,
    }
}

/// The names of `names`, each once, in the order of their first occurrence.
pub fn dedup_names(names: &Vec<String>) -> (r: Vec<String>)
    ensures
        view_strings(r@) == distinct_names(view_strings(names@)),
{
    let ghost n = view_strings(names@);
    let mut r: Vec<String> = Vec::new();
    let mut i: usize = 0;
    while i < names.len()
        invariant
            i <= names.len(),
            n == view_strings(names@),
            view_strings(r@) == distinct_names(n.take(i as int)),
        decreases names.len() - i,
    {
        assert(n.take(i + 1).drop_last() =~= n.take(i as int));
        assert(n.take(i + 1).last() == names@[i as int]@);
        let ghost before = r@;
        if !contains_string(&r, &names[i]) {
            r.push(names[i].clone());
            assert(view_strings(r@) =~= view_strings(before).push(names@[i as int]@));
        }
        i = i + 1;
    }
    assert(n.take(i as int) == n);
    r
}

/// The names of `names` that some consumer uses.
pub fn filter_consumed(consumers: &Vec<String>, names: &Vec<String>) -> (r: Vec<String>)
    ensures
        view_strings(r@) == consumed_names(view_strings(consumers@), view_strings(names@)),
{
    let ghost c = view_strings(consumers@);
    let ghost n = view_strings(names@);
    let mut r: Vec<String> = Vec::new();
    let mut i: usize = 0;
    while i < names.len()
        invariant
            i <= names.len(),
            c == view_strings(consumers@),
            n == view_strings(names@),
            view_strings(r@) == consumed_names(c, n.take(i as int)),
        decreases names.len() - i,
    {
        assert(n.take(i + 1).drop_last() =~= n.take(i as int));
        assert(n.take(i + 1).last() == names@[i as int]@);
        let ghost before = r@;
        if contains_string(consumers, &names[i]) {
            r.push(names[i].clone());
            assert(view_strings(r@) =~= view_strings(before).push(names@[i as int]@));
        }
        i = i + 1;
    }
    assert(n.take(i as int) == n);
    r
}

/// Removes the re-exports that no consumer uses and, where the configuration
/// asks for it, replaces wildcard re-exports by the consumed names.
pub fn optimize_barrel(
    config: &OptimizeBarrelConfig,
    consumers: &Vec<String>,
    program: &Program,
) -> (r: Program)
    ensures
        r@ == optimize_barrel_items(view_strings(consumers@), config.wildcard, program@),
{
    if consumers.len() == 0 {
        return program.copy();
    }
    let ghost c = view_strings(consumers@);
    let ghost v = program@;
    let expansion: Option<Vec<String>> = if config.wildcard && count_wildcards(&program.items)
        == 1 {
        let exported = collect_exports(&program.items);
        Some(filter_unexported(&dedup_names(consumers), &exported))
    } else {
        None
    };
    let ghost e = wildcard_expansion(c, config.wildcard, v);
    assert(view_expansion(expansion) == e);
    let mut out: Vec<ModuleItem> = Vec::new();
    let mut i: usize = 0;
    while i < program.items.len()
        invariant
            i <= program.items.len(),
            c == view_strings(consumers@),
            v == program@,
            view_expansion(expansion) == e,
            view_items(out@) == optimize_items(c, e, v.take(i as int)),
        decreases program.items.len() - i,
    {
        assert(v.take(i + 1).drop_last() =~= v.take(i as int));
        assert(v.take(i + 1).last() == program.items@[i as int]@);
        let ghost before = out@;
        match &program.items[i] {
            ModuleItem::ReExport { src, names } => {
                let kept = filter_consumed(consumers, names);
                if kept.len() > 0 || names.len() == 0 {
                    out.push(ModuleItem::ReExport { src: src.clone(), names: kept });
                }
            },
            ModuleItem::ReExportAll { src } => {
                match &expansion {
                    Some(names) => {
                        out.push(ModuleItem::ReExport { src: src.clone(), names: copy_strings(names) });
                    },
                    None => {
                        out.push(ModuleItem::ReExportAll { src: src.clone() });
                    },
                }
            },
            other => {
                out.push(other.copy());
            },
        }
        i = i + 1;
        assert(view_items(out@) =~= view_items(before) + optimize_item(
            c,
            e,
            v.take(i as int).last(),
        ));
    }
    assert(v.take(i as int) == v);
    Program { items: out }
}

} // verus!
