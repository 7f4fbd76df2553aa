//! The taskbar slot allocator: a minimized window takes the lowest slot
//! that no other minimized window holds.

use vstd::prelude::*;
use std::collections::HashSet;
use crate::registry::{is_window, window_of, Role, UiEntity, WindowRegistry};

verus! {

broadcast use vstd::std_specs::hash::group_hash_axioms;

/// The slot that entity `j` holds in the taskbar, if it is a live
/// minimized window with a slot.
pub open spec fn taskbar_slot(s: Seq<UiEntity>, j: int) -> Option<usize> {
    if is_window(s, j) && window_of(s, j).is_minimized {
        window_of(s, j).minimize_slot
    } else {
        None
    }
}

/// Some minimized window holds `slot`.
pub open spec fn slot_used(s: Seq<UiEntity>, slot: usize) -> bool {
    exists|j: int| 0 <= j < s.len() && #[trigger] taskbar_slot(s, j) == Some(slot)
}

/// `slot` is free and every lower slot is held.
pub open spec fn is_first_free(s: Seq<UiEntity>, slot: usize) -> bool {
    &&& !slot_used(s, slot)
    &&& forall|k: usize| k < slot ==> #[trigger] slot_used(s, k)
}

/// The lowest free slot.
pub open spec fn first_free_slot(s: Seq<UiEntity>) -> usize {
    choose|slot: usize| is_first_free(s, slot)
}

/// No two minimized windows hold the same slot.
pub open spec fn slots_distinct(s: Seq<UiEntity>) -> bool {
    forall|i: int, j: int|
        0 <= i < s.len() && 0 <= j < s.len() && i != j && #[trigger] taskbar_slot(s, i) is Some
            && #[trigger] taskbar_slot(s, j) is Some ==> taskbar_slot(s, i) != taskbar_slot(s, j)
}

/// There is only one lowest free slot.
pub proof fn lemma_first_free_unique(s: Seq<UiEntity>, slot: usize)
    requires
        is_first_free(s, slot),
    ensures
        first_free_slot(s) == slot,
{
}

/// The slots below `n`.
pub open spec fn slots_below(n: usize) -> Set<usize> {
    Set::new(|k: usize| k < n)
}

proof fn lemma_slots_below_len(n: usize)
    ensures
        slots_below(n).finite(),
        slots_below(n).len() == n,
    decreases n,
{
    if n == 0 {
        assert(slots_below(n) =~= Set::<usize>::empty());
    } else {
        let m = (n - 1) as usize;
        lemma_slots_below_len(m);
        assert(slots_below(n) =~= slots_below(m).insert(m));
    }
}

/// The lowest slot that no minimized window holds.
pub fn find_first_free_slot(registry: &WindowRegistry) -> (slot: usize)
    ensures
        is_first_free(registry.entities@, slot),
        slot == first_free_slot(registry.entities@),
        slot <= registry.entities.len(),
{
    let mut used_slots: HashSet<usize> = HashSet::new();
    let mut i: usize = 0;
    while i < registry.entities.len()
        invariant
            i <= registry.entities.len(),
            used_slots@.finite(),
            used_slots@.len() <= i,
            forall|k: usize|
                used_slots@.contains(k) <==> exists|j: int|
                    0 <= j < i && #[trigger] taskbar_slot(registry.entities@, j) == Some(k),
        decreases registry.entities.len() - i,
    {
        let ghost before = used_slots@;
        if registry.entities[i].alive {
            match &registry.entities[i].role {
                Role::Window(w) => {
                    if w.is_minimized {
                        if let Some(slot) = w.minimize_slot {
                            used_slots.insert(slot);
                        }
                    }
                },
                _ => {},
            }
        }
        proof {
            let s = registry.entities@;
            assert forall|k: usize|
                used_slots@.contains(k) <==> exists|j: int|
                    0 <= j < i + 1 && #[trigger] taskbar_slot(s, j) == Some(k) by {
                if used_slots@.contains(k) {
                    if before.contains(k) {
                        let j = choose|j: int|
                            0 <= j < i && #[trigger] taskbar_slot(s, j) == Some(k);
                        assert(0 <= j < i + 1 && taskbar_slot(s, j) == Some(k));
                    } else {
                        assert(taskbar_slot(s, i as int) == Some(k));
                    }
                }
                if exists|j: int| 0 <= j < i + 1 && #[trigger] taskbar_slot(s, j) == Some(k) {
                    let j = choose|j: int|
                        0 <= j < i + 1 && #[trigger] taskbar_slot(s, j) == Some(k);
                    if j < i {
                        assert(before.contains(k));
                    }
                }
            }
        }
        i = i + 1;
    }
    let mut slot: usize = 0;
    while used_slots.contains(&slot)
        invariant
            used_slots@.finite(),
            used_slots@.len() <= registry.entities.len(),
            slot <= used_slots@.len(),
            forall|k: usize| k < slot ==> used_slots@.contains(k),
        decreases used_slots@.len() - slot,
    {
        proof {
            lemma_slots_below_len(slot);
            let held = slots_below(slot).insert(slot);
            assert(held.subset_of(used_slots@));
            vstd::set_lib::lemma_len_subset(held, used_slots@);
        }
        slot = slot + 1;
    }
    proof {
        let s = registry.entities@;
        assert forall|k: usize| k < slot implies #[trigger] slot_used(s, k) by {
            assert(used_slots@.contains(k));
        }
        lemma_first_free_unique(s, slot);
    }
    slot
}

/// A sequence of entities always has a lowest free slot, and it is no
/// higher than the number of entities.
pub proof fn lemma_some_first_free(s: Seq<UiEntity>)
    requires
        s.len() <= usize::MAX,
    ensures
        is_first_free(s, first_free_slot(s)),
        first_free_slot(s) <= s.len(),
{
    lemma_first_free_from(s, 0);
}

/// The slots that a minimized window among the first `n` entities holds.
spec fn held_before(s: Seq<UiEntity>, n: int) -> Set<usize> {
    Set::new(|k: usize| exists|j: int| 0 <= j < n && #[trigger] taskbar_slot(s, j) == Some(k))
}

proof fn lemma_held_finite(s: Seq<UiEntity>, n: int)
    requires
        0 <= n <= s.len(),
    ensures
        held_before(s, n).finite(),
        held_before(s, n).len() <= n,
    decreases n,
{
    if n == 0 {
        assert(held_before(s, n) =~= Set::<usize>::empty());
    } else {
        lemma_held_finite(s, n - 1);
        match taskbar_slot(s, n - 1) {
            Some(k) => {
                assert(held_before(s, n) =~= held_before(s, n - 1).insert(k));
            },
            None => {
                assert(held_before(s, n) =~= held_before(s, n - 1));
            },
        }
    }
}

proof fn lemma_first_free_from(s: Seq<UiEntity>, k: usize)
    requires
        forall|x: usize| x < k ==> #[trigger] slot_used(s, x),
        k <= s.len() <= usize::MAX,
    ensures
        is_first_free(s, first_free_slot(s)),
        first_free_slot(s) <= s.len(),
    decreases s.len() - k,
{
    if !slot_used(s, k) {
        assert(is_first_free(s, k));
        lemma_first_free_unique(s, k);
    } else {
        lemma_held_finite(s, s.len() as int);
        let held = held_before(s, s.len() as int);
        let low = slots_below(k).insert(k);
        assert forall|x: usize| low.contains(x) implies held.contains(x) by {
            assert(slot_used(s, x));
        }
        lemma_slots_below_len(k);
        vstd::set_lib::lemma_len_subset(low, held);
        lemma_first_free_from(s, (k + 1) as usize);
    }
}

} // verus!
