//! What holds of the draw pass and of an entity's life in the registry.

use vstd::prelude::*;
use crate::draw_objects::{
    distinct_ids, draws_before, entry_of, has_id, in_draw_order, is_drawn, is_used,
    lemma_entry_of_unique, lemma_filter_keeps_order, letting_go, showing, update_id, DrawEntry,
};

verus! {

/// The draw pass runs in non-decreasing z-index, entities of one z-index in
/// the order of their creation, and it never holds an entity that is not alive.
pub proof fn lemma_draw_pass_ordered(s: Seq<DrawEntry>)
    requires
        in_draw_order(s),
        distinct_ids(s),
    ensures
        forall|i: int, j: int|
            0 <= i < j < s.filter(is_drawn()).len() ==> {
                let a = #[trigger] s.filter(is_drawn())[i];
                let b = #[trigger] s.filter(is_drawn())[j];
                a.z_index <= b.z_index && (a.z_index == b.z_index ==> a.id < b.id)
            },
        forall|k: int|
            0 <= k < s.filter(is_drawn()).len() ==> {
                let a = #[trigger] s.filter(is_drawn())[k];
                a.draw_flags.used && a.draw_flags.visible
            },
{
    lemma_filter_keeps_order(s, is_drawn());
    let d = s.filter(is_drawn());
    assert forall|i: int, j: int| 0 <= i < j < d.len() implies {
        let a = #[trigger] d[i];
        let b = #[trigger] d[j];
        a.z_index <= b.z_index && (a.z_index == b.z_index ==> a.id < b.id)
    } by {
        assert(draws_before(d[i], d[j]));
    }
    assert forall|k: int| 0 <= k < d.len() implies {
        let a = #[trigger] d[k];
        a.draw_flags.used && a.draw_flags.visible
    } by {
        assert(is_drawn()(d[k]));
    }
}

/// A filtered sequence holds an id exactly where the sequence holds an entry
/// with this id that passes the filter.
pub proof fn lemma_filter_has_id(s: Seq<DrawEntry>, pred: spec_fn(DrawEntry) -> bool, id: u64)
    ensures
        has_id(s.filter(pred), id) <==> exists|i: int|
            0 <= i < s.len() && (#[trigger] s[i]).id == id && pred(s[i]),
    decreases s.len(),
{
    reveal(Seq::filter);
    if s.len() > 0 {
        let front = s.drop_last();
        let last = s.last();
        let kept = front.filter(pred);
        lemma_filter_has_id(front, pred, id);
        if has_id(s.filter(pred), id) {
            let k = choose|k: int| 0 <= k < s.filter(pred).len() && (#[trigger] s.filter(pred)[k]).id == id;
            if pred(last) && k == kept.len() {
                assert(s[s.len() - 1].id == id && pred(s[s.len() - 1]));
            } else {
                assert(kept[k].id == id);
                assert(has_id(kept, id));
                let i = choose|i: int| 0 <= i < front.len() && (#[trigger] front[i]).id == id && pred(front[i]);
                assert(s[i].id == id && pred(s[i]));
            }
        }
        if exists|i: int| 0 <= i < s.len() && (#[trigger] s[i]).id == id && pred(s[i]) {
            let i = choose|i: int| 0 <= i < s.len() && (#[trigger] s[i]).id == id && pred(s[i]);
            if i == s.len() - 1 {
                assert(s.filter(pred) == kept.push(last));
                assert(s.filter(pred)[kept.len() as int].id == id);
            } else {
                assert(front[i].id == id && pred(front[i]));
                assert(has_id(kept, id));
                let k = choose|k: int| 0 <= k < kept.len() && (#[trigger] kept[k]).id == id;
                assert(s.filter(pred)[k].id == id);
            }
        }
    }
}

/// Dropping the last handle on an entity removes nothing at once: the entity
/// stays in the registry, no longer alive and out of the draw pass. One
/// reclamation later it is gone from the registry and from the draw pass.
pub proof fn lemma_last_handle_dropped(s: Seq<DrawEntry>, id: u64)
    requires
        distinct_ids(s),
        has_id(s, id),
        entry_of(s, id).handles == 1,
    ensures
        ({
            let dropped = update_id(s, id, letting_go());
            let reclaimed = dropped.filter(is_used());
            &&& dropped.len() == s.len()
            &&& has_id(dropped, id)
            &&& !has_id(dropped.filter(is_drawn()), id)
            &&& !has_id(reclaimed, id)
            &&& !has_id(reclaimed.filter(is_drawn()), id)
        }),
{
    let dropped = update_id(s, id, letting_go());
    let reclaimed = dropped.filter(is_used());
    let at = choose|i: int| 0 <= i < s.len() && (#[trigger] s[i]).id == id;
    assert(dropped[at].id == id);
    assert forall|i: int| 0 <= i < dropped.len() && (#[trigger] dropped[i]).id == id implies !dropped[i].draw_flags.used by {
        assert(s[i].id == id);
        lemma_entry_of_unique(s, id, i);
    }
    lemma_filter_has_id(dropped, is_drawn(), id);
    lemma_filter_has_id(dropped, is_used(), id);
    lemma_filter_has_id(reclaimed, is_drawn(), id);
}

/// Hiding a live entity takes it out of the draw pass and leaves it in the
/// registry, where reclamation passes over it as over every live entity.
pub proof fn lemma_hidden_entity_stays(s: Seq<DrawEntry>, id: u64)
    requires
        distinct_ids(s),
        has_id(s, id),
        entry_of(s, id).draw_flags.used,
    ensures
        ({
            let hidden = update_id(s, id, showing(false));
            &&& hidden.len() == s.len()
            &&& has_id(hidden, id)
            &&& !has_id(hidden.filter(is_drawn()), id)
            &&& has_id(hidden.filter(is_used()), id)
        }),
{
    let hidden = update_id(s, id, showing(false));
    let at = choose|i: int| 0 <= i < s.len() && (#[trigger] s[i]).id == id;
    assert(hidden[at].id == id && is_used()(hidden[at]));
    assert forall|i: int| 0 <= i < hidden.len() && (#[trigger] hidden[i]).id == id implies !hidden[i].draw_flags.visible by {
        assert(s[i].id == id);
    }
    lemma_filter_has_id(hidden, is_drawn(), id);
    lemma_filter_has_id(hidden, is_used(), id);
}

/// Reclamation removes the entities that are not alive and no others: what
/// is left is every live entry, each exactly as it was.
pub proof fn lemma_reclaim_keeps_live(s: Seq<DrawEntry>, e: DrawEntry)
    ensures
        s.filter(is_used()).contains(e) <==> s.contains(e) && e.draw_flags.used,
{
    let live = s.filter(is_used());
    if live.contains(e) {
        let k = choose|k: int| 0 <= k < live.len() && live[k] == e;
        s.lemma_filter_pred(is_used(), k);
        s.lemma_filter_contains_rev(is_used(), e);
    }
    if s.contains(e) && e.draw_flags.used {
        let i = choose|i: int| 0 <= i < s.len() && s[i] == e;
        s.lemma_filter_contains(is_used(), i);
    }
}

} // verus!
