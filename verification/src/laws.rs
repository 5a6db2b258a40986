//! Laws the library keeps, stated over the spec functions that the public
//! contracts use.

use vstd::prelude::*;
use crate::construct::{
    spec_add_str, spec_body_apply, spec_contains_str, spec_union_keys, BodyAccV, BodyItemV,
};
use crate::state::{
    lemma_stack_find_valid, spec_apply_option, spec_resolve_root, spec_stack_find,
    spec_stack_pop, spec_stack_push, spec_stack_wf, RootNamesV,
};
use crate::model::AccountType;

verus! {

// ---------------------------------------------------------------------------
// Tag-stack balance.
// ---------------------------------------------------------------------------

/// Popping a tag immediately after pushing it restores the stack exactly;
/// together with the definition of the end-of-input check (a non-empty
/// stack is the unbalanced-tags error), matched pushes and pops leave the
/// parse where it was.
pub proof fn lemma_pop_undoes_push(st: Seq<(Seq<char>, int)>, t: Seq<char>)
    requires
        spec_stack_wf(st),
    ensures
        spec_stack_pop(spec_stack_push(st, t), t) == Some(st),
{
    let idx = spec_stack_find(st, t);
    lemma_stack_find_valid(st, t);
    if idx >= 0 {
        let st2 = st.update(idx, (st[idx].0, st[idx].1 + 1));
        lemma_find_after_update(st, idx, t);
        assert(spec_stack_find(st2, t) == idx);
        assert(st2[idx].1 == st[idx].1 + 1);
        assert(st[idx].1 >= 1);
        assert(st2.update(idx, (st2[idx].0, st2[idx].1 - 1)) =~= st);
    } else {
        let st2 = st.push((t, 1));
        lemma_find_after_push(st, t);
        assert(spec_stack_find(st2, t) == st.len());
        assert(st2[st.len() as int].1 == 1);
        assert(st2.remove(st.len() as int) =~= st);
    }
}

/// A pop of an absent tag fails, and leaves nothing to recover: the parse
/// reports "Attempting to pop absent tag".
pub proof fn lemma_pop_absent_fails(st: Seq<(Seq<char>, int)>, t: Seq<char>)
    ensures
        (spec_stack_find(st, t) < 0) == (spec_stack_pop(st, t) is None),
{
}

proof fn lemma_find_after_update(st: Seq<(Seq<char>, int)>, idx: int, t: Seq<char>)
    requires
        0 <= idx < st.len(),
        spec_stack_find(st, t) == idx,
    ensures
        spec_stack_find(st.update(idx, (st[idx].0, st[idx].1 + 1)), t) == idx,
    decreases st.len(),
{
    let st2 = st.update(idx, (st[idx].0, st[idx].1 + 1));
    if idx == 0 {
        assert(st2[0].0 == st[0].0);
    } else {
        assert(st2[0] == st[0]);
        assert(st.skip(1)[idx - 1] == st[idx]);
        assert(spec_stack_find(st.skip(1), t) == idx - 1);
        lemma_find_after_update(st.skip(1), idx - 1, t);
        assert(st2.skip(1) =~= st.skip(1).update(idx - 1, (st[idx].0, st[idx].1 + 1)));
    }
}

proof fn lemma_find_after_push(st: Seq<(Seq<char>, int)>, t: Seq<char>)
    requires
        spec_stack_find(st, t) < 0,
    ensures
        spec_stack_find(st.push((t, 1)), t) == st.len(),
    decreases st.len(),
{
    if st.len() == 0 {
        assert(st.push((t, 1))[0].0 == t);
    } else {
        assert(st[0].0 != t);
        assert(st.push((t, 1))[0] == st[0]);
        lemma_find_after_push(st.skip(1), t);
        assert(st.push((t, 1)).skip(1) =~= st.skip(1).push((t, 1)));
    }
}

// ---------------------------------------------------------------------------
// Root-renaming scope.
// ---------------------------------------------------------------------------

/// Renaming the asset root changes how subsequent account tokens resolve:
/// the new name resolves to `Assets`, and the old name no longer resolves
/// at all unless another type happens to carry it.
pub proof fn lemma_root_rename_scope(roots: RootNamesV, val: Seq<char>)
    ensures
        spec_resolve_root(
            spec_apply_option(roots, "name_assets"@, val),
            val,
        ) == Some(AccountType::Assets),
        forall|w: Seq<char>|
            w != val && w != roots.liabilities && w != roots.equity && w != roots.income && w
                != roots.expenses ==> spec_resolve_root(
                spec_apply_option(roots, "name_assets"@, val),
                w,
            ) is None,
{
}

/// Before any option directive, a root word resolves exactly when it is
/// one of the five current names; the table does not change except through
/// the five `name_*` options.
pub proof fn lemma_resolve_characterisation(roots: RootNamesV, w: Seq<char>)
    ensures
        (spec_resolve_root(roots, w) is Some) == (w == roots.assets || w == roots.liabilities
            || w == roots.equity || w == roots.income || w == roots.expenses),
        forall|name: Seq<char>, val: Seq<char>|
            name != "name_assets"@ && name != "name_liabilities"@ && name != "name_equity"@
                && name != "name_income"@ && name != "name_expenses"@ ==> spec_apply_option(
                roots,
                name,
                val,
            ) == roots,
{
}

// ---------------------------------------------------------------------------
// Metadata attachment.
// ---------------------------------------------------------------------------

/// The body fold over a sequence of items.
pub open spec fn spec_apply_items(acc: BodyAccV, items: Seq<BodyItemV>) -> BodyAccV
    decreases items.len(),
{
    if items.len() == 0 {
        acc
    } else {
        spec_apply_items(spec_body_apply(acc, items[0]), items.skip(1))
    }
}

/// The key/value items of a body sequence, in order.
pub open spec fn spec_kvs_of(items: Seq<BodyItemV>) -> Seq<crate::model::MetaEntryV>
    decreases items.len(),
{
    if items.len() == 0 {
        Seq::empty()
    } else {
        match items[0] {
            BodyItemV::KV(v) => seq![v] + spec_kvs_of(items.skip(1)),
            _ => spec_kvs_of(items.skip(1)),
        }
    }
}

pub open spec fn spec_no_postings(items: Seq<BodyItemV>) -> bool {
    forall|k: int| 0 <= k < items.len() ==> !((#[trigger] items[k]) is P)
}

/// A key/value pair that stands between postings attaches to the posting
/// seen last; one that stands before any posting attaches to the
/// transaction itself.  The single-step form is the definition of the
/// fold; this law lifts the before-any-posting half to whole sequences:
/// a body with no postings sends every key/value pair, in order, to the
/// transaction's own metadata.
pub proof fn lemma_meta_attaches_to_transaction(acc: BodyAccV, items: Seq<BodyItemV>)
    requires
        acc.postings.len() == 0,
        spec_no_postings(items),
    ensures
        spec_apply_items(acc, items).meta == acc.meta + spec_kvs_of(items),
        spec_apply_items(acc, items).postings.len() == 0,
    decreases items.len(),
{
    if items.len() == 0 {
        assert(acc.meta + spec_kvs_of(items) =~= acc.meta);
    } else {
        let acc2 = spec_body_apply(acc, items[0]);
        assert(spec_no_postings(items.skip(1)));
        lemma_meta_attaches_to_transaction(acc2, items.skip(1));
        match items[0] {
            BodyItemV::KV(v) => {
                assert(acc2.meta == acc.meta.push(v));
                assert(acc.meta.push(v) + spec_kvs_of(items.skip(1)) =~= acc.meta + (seq![v]
                    + spec_kvs_of(items.skip(1))));
            },
            BodyItemV::P(_) => {
                assert(false);
            },
            _ => {
                assert(acc.meta + spec_kvs_of(items.skip(1)) =~= acc.meta + spec_kvs_of(
                    items,
                ));
            },
        }
    }
}

/// The between-postings half: applying a key/value pair when postings have
/// been seen leaves the transaction's metadata alone and extends the last
/// posting's metadata with exactly that pair.
pub proof fn lemma_meta_attaches_to_last_posting(acc: BodyAccV, v: crate::model::MetaEntryV)
    requires
        acc.postings.len() > 0,
    ensures
        spec_body_apply(acc, BodyItemV::KV(v)).meta == acc.meta,
        spec_body_apply(acc, BodyItemV::KV(v)).postings.len() == acc.postings.len(),
        spec_body_apply(acc, BodyItemV::KV(v)).postings.last().meta == acc.postings.last()
            .meta.push(v),
        forall|k: int|
            0 <= k < acc.postings.len() - 1 ==> spec_body_apply(
                acc,
                BodyItemV::KV(v),
            ).postings[k] == acc.postings[k],
{
}

// ---------------------------------------------------------------------------
// Tag union.
// ---------------------------------------------------------------------------

/// Adding a string makes a set that holds it and everything it held.
pub proof fn lemma_add_str_contains(ss: Seq<Seq<char>>, t: Seq<char>, x: Seq<char>)
    ensures
        spec_contains_str(spec_add_str(ss, t), t),
        spec_contains_str(ss, x) ==> spec_contains_str(spec_add_str(ss, t), x),
{
    if !spec_contains_str(ss, t) {
        assert(spec_add_str(ss, t)[ss.len() as int] == t);
        if spec_contains_str(ss, x) {
            let m = choose|m: int| 0 <= m < ss.len() && ss[m] == x;
            assert(spec_add_str(ss, t)[m] == x);
        }
    }
}

/// Every pushed tag stands in the transaction's tag set: the union of the
/// parsed tags with the stack's keys contains each key, and keeps every
/// tag the transaction already had.
pub proof fn lemma_tag_union(tags: Seq<Seq<char>>, keys: Seq<Seq<char>>)
    ensures
        forall|k: int|
            0 <= k < keys.len() ==> spec_contains_str(
                spec_union_keys(tags, keys),
                #[trigger] keys[k],
            ),
        forall|x: Seq<char>|
            spec_contains_str(tags, x) ==> spec_contains_str(spec_union_keys(tags, keys), x),
    decreases keys.len(),
{
    if keys.len() > 0 {
        let tags2 = spec_add_str(tags, keys[0]);
        lemma_tag_union(tags2, keys.skip(1));
        assert forall|k: int| 0 <= k < keys.len() implies spec_contains_str(
            spec_union_keys(tags, keys),
            #[trigger] keys[k],
        ) by {
            if k == 0 {
                lemma_add_str_contains(tags, keys[0], keys[0]);
                assert forall|x: Seq<char>|
                    spec_contains_str(tags2, x) implies spec_contains_str(
                    spec_union_keys(tags2, keys.skip(1)),
                    x,
                ) by {}
            } else {
                assert(keys.skip(1)[k - 1] == keys[k]);
            }
        }
        assert forall|x: Seq<char>|
            spec_contains_str(tags, x) implies spec_contains_str(
            spec_union_keys(tags, keys),
            x,
        ) by {
            lemma_add_str_contains(tags, keys[0], x);
        }
    }
}

} // verus!

// The between-postings half of metadata attachment, lifted to sequences.

verus! {

/// Once a posting has been seen, a body of further key/value items leaves
/// the transaction's own metadata untouched: every pair goes to the last
/// posting, in order.
pub proof fn lemma_meta_after_postings(acc: BodyAccV, items: Seq<BodyItemV>)
    requires
        acc.postings.len() > 0,
        forall|k: int| 0 <= k < items.len() ==> (#[trigger] items[k]) is KV,
    ensures
        spec_apply_items(acc, items).meta == acc.meta,
        spec_apply_items(acc, items).postings.len() == acc.postings.len(),
        spec_apply_items(acc, items).postings.last().meta == acc.postings.last().meta
            + spec_kvs_of(items),
    decreases items.len(),
{
    if items.len() == 0 {
        assert(acc.postings.last().meta + spec_kvs_of(items) =~= acc.postings.last().meta);
    } else {
        let acc2 = spec_body_apply(acc, items[0]);
        let v = items[0]->KV_0;
        lemma_meta_attaches_to_last_posting(acc, v);
        lemma_meta_after_postings(acc2, items.skip(1));
        assert(acc2.postings.last().meta == acc.postings.last().meta.push(v));
        assert(acc.postings.last().meta.push(v) + spec_kvs_of(items.skip(1)) =~= acc.postings
            .last().meta + (seq![v] + spec_kvs_of(items.skip(1))));
    }
}

} // verus!
