//! What holds of every run of creations and unloads.

use crate::plugin::PluginState;
use crate::registry::EditorStorage;
use vstd::prelude::*;

verus! {

/// Registering the editors of `items` one by one hands out the identities
/// from `v.next` on, one each, keeps the state well formed, stores each
/// editor under its identity and adds exactly `items.len()` live editors.
pub proof fn lemma_after_creations<P, E>(v: PluginState<P, E>, items: Seq<EditorStorage<P, E>>)
    requires
        v.well_formed(),
        v.next + items.len() <= usize::MAX,
    ensures
        v.after_creations(items).well_formed(),
        v.after_creations(items).next == v.next + items.len(),
        v.after_creations(items).live() == v.live() + items.len(),
        forall|id: usize| #[trigger]
            v.editors.contains_key(id) ==> v.after_creations(items).editors.contains_key(id)
                && v.after_creations(items).editors[id] == v.editors[id],
        forall|k: int|
            0 <= k < items.len() ==> v.after_creations(items).editors.contains_key(
                #[trigger] v.nth_identity(items, k),
            ) && v.after_creations(items).editors[v.nth_identity(items, k)] == items[k],
        forall|k: int|
            0 <= k <= items.len() ==> #[trigger] v.nth_identity(items, k) == v.next + k,
    decreases items.len(),
{
    if items.len() == 0 {
        assert(items.take(0) =~= items);
    } else {
        let front = items.drop_last();
        let before = v.after_creations(front);
        let after = v.after_creations(items);
        lemma_after_creations(v, front);
        assert(after == before.registered(items.last()));
        assert forall|id: usize| #[trigger]
            v.editors.contains_key(id) implies after.editors.contains_key(id)
            && after.editors[id] == v.editors[id] by {
            assert(id < v.next);
            assert(before.editors.contains_key(id));
        }
        assert forall|k: int| 0 <= k <= items.len() implies #[trigger] v.nth_identity(items, k)
            == v.next + k by {
            if k == items.len() {
                assert(items.take(k) =~= items);
            } else {
                assert(items.take(k) =~= front.take(k));
                assert(v.nth_identity(front, k) == v.next + k);
            }
        }
        assert forall|k: int| 0 <= k < items.len() implies after.editors.contains_key(
            #[trigger] v.nth_identity(items, k),
        ) && after.editors[v.nth_identity(items, k)] == items[k] by {
            if k < front.len() {
                assert(items.take(k) =~= front.take(k));
                assert(v.nth_identity(front, k) == v.nth_identity(items, k));
                assert(before.editors.contains_key(v.nth_identity(front, k)));
                assert(front[k] == items[k]);
            }
        }
    }
}

/// Of the identities that a run of successful creations returns, a later one
/// is greater than an earlier one; so no two of them are equal.
pub proof fn law_identities_strictly_increase<P, E>(
    v: PluginState<P, E>,
    items: Seq<EditorStorage<P, E>>,
    i: int,
    j: int,
)
    requires
        v.well_formed(),
        v.next + items.len() <= usize::MAX,
        0 <= i < j < items.len(),
    ensures
        v.nth_identity(items, i) < v.nth_identity(items, j),
        v.nth_identity(items, i) != v.nth_identity(items, j),
{
    lemma_after_creations(v, items);
}

/// An identity that a creation returns was not in use before: no editor that
/// was live at the start of the run stands under it.
pub proof fn law_identities_are_fresh<P, E>(
    v: PluginState<P, E>,
    items: Seq<EditorStorage<P, E>>,
    i: int,
)
    requires
        v.well_formed(),
        v.next + items.len() <= usize::MAX,
        0 <= i < items.len(),
    ensures
        !v.editors.contains_key(v.nth_identity(items, i)),
{
    lemma_after_creations(v, items);
}

/// After `items.len()` successful creations on a new plugin, and no unload,
/// the registry holds exactly that many editors: each of `items` under the
/// identity it was given, counted from zero.
pub proof fn law_registry_size<P, E>(items: Seq<EditorStorage<P, E>>)
    requires
        items.len() <= usize::MAX,
    ensures
        PluginState::<P, E>::initial().after_creations(items).live() == items.len(),
        forall|k: int|
            0 <= k < items.len() ==> #[trigger] PluginState::<P, E>::initial().nth_identity(
                items,
                k,
            ) == k,
        forall|k: int|
            0 <= k < items.len() ==> PluginState::<P, E>::initial().after_creations(
                items,
            ).editors[k as usize] == #[trigger] items[k],
{
    let v = PluginState::<P, E>::initial();
    lemma_after_creations(v, items);
    assert forall|k: int| 0 <= k < items.len() implies v.after_creations(items).editors[k as usize]
        == #[trigger] items[k] by {
        assert(v.nth_identity(items, k) == k);
    }
}

/// An unload after `items.len()` successful creations on a new plugin
/// releases that many editors and leaves none; an unload right after it
/// releases none.
pub proof fn law_unload_total<P, E>(items: Seq<EditorStorage<P, E>>)
    requires
        items.len() <= usize::MAX,
    ensures
        PluginState::<P, E>::initial().after_creations(items).live() == items.len(),
        PluginState::<P, E>::initial().after_creations(items).unloaded().live() == 0,
        PluginState::<P, E>::initial().after_creations(items).unloaded().unloaded().live() == 0,
{
    law_registry_size(items);
}

/// Whatever the plugin held, and whoever holds handles to it, no editor is
/// registered after an unload, and the state is well formed again.
pub proof fn law_unload_leaves_no_editor<P, E>(v: PluginState<P, E>, id: usize)
    ensures
        !v.unloaded().editors.contains_key(id),
        v.unloaded().live() == 0,
        v.well_formed() ==> v.unloaded().well_formed(),
{
}

} // verus!
