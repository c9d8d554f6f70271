//! Selection arithmetic: where a selection lands after a step up or down a
//! list, how a selection that points beyond its list is brought back, and
//! what a toggle does to the list of pinned names.

use vstd::prelude::*;
use crate::roster::{find_by_name, names_of};
use crate::text::texts;

verus! {

/// The selection after a step down a list of `count` rows: one further,
/// and from the last row to the first. In an empty list the selection
/// stays.
pub open spec fn next_index(index: int, count: int) -> int {
    if count > 0 {
        (index + 1) % count
    } else {
        index
    }
}

/// The selection after a step up a list of `count` rows: one back, from
/// the first row to the last, and from beyond the list to its last row. In
/// an empty list the selection stays.
pub open spec fn previous_index(index: int, count: int) -> int {
    if count <= 0 {
        index
    } else if index == 0 {
        count - 1
    } else if index - 1 < count {
        index - 1
    } else {
        count - 1
    }
}

/// The selection brought back into a list of `count` rows: unchanged if
/// it points at a row, the last row if it points beyond, and the first
/// position if there is no row.
pub open spec fn clamped_index(index: int, count: int) -> int {
    if count <= 0 {
        0
    } else if index < count {
        index
    } else {
        count - 1
    }
}

/// Selection clamp: in a list that has rows, a step up or down from any
/// selection, in range or not, ends on a row.
pub proof fn lemma_navigation_in_range(index: int, count: int)
    requires
        0 <= index,
        0 < count,
    ensures
        0 <= next_index(index, count) < count,
        0 <= previous_index(index, count) < count,
        0 <= clamped_index(index, count) < count,
{
}

/// From a selection that points at a row, a step down and a step up
/// cancel each other.
pub proof fn lemma_navigation_steps_cancel(index: int, count: int)
    requires
        0 <= index < count,
    ensures
        previous_index(next_index(index, count), count) == index,
        next_index(previous_index(index, count), count) == index,
        clamped_index(index, count) == index,
{
    vstd::arithmetic::div_mod::lemma_small_mod(index as nat, count as nat);
    lemma_add_one_mod(index, count);
    if index > 0 {
        vstd::arithmetic::div_mod::lemma_small_mod((index - 1) as nat, count as nat);
        lemma_add_one_mod(index - 1, count);
    } else {
        vstd::arithmetic::div_mod::lemma_small_mod((count - 1) as nat, count as nat);
        lemma_add_one_mod(count - 1, count);
    }
}

/// Moves a selection one row down.
pub fn step_down(index: usize, count: usize) -> (moved: usize)
    ensures
        moved == next_index(index as int, count as int),
{
    if count > 0 {
        let within: usize = index % count;
        proof {
            lemma_add_one_mod(index as int, count as int);
        }
        if within + 1 == count {
            0
        } else {
            within + 1
        }
    } else {
        index
    }
}

/// Moves a selection one row up.
pub fn step_up(index: usize, count: usize) -> (moved: usize)
    ensures
        moved == previous_index(index as int, count as int),
{
    if count == 0 {
        index
    } else if index == 0 {
        count - 1
    } else if index - 1 < count {
        index - 1
    } else {
        count - 1
    }
}

/// Brings a selection back into its list.
pub fn clamp_index(index: usize, count: usize) -> (kept: usize)
    ensures
        kept == clamped_index(index as int, count as int),
{
    if count == 0 {
        0
    } else if index < count {
        index
    } else {
        count - 1
    }
}

/// Adding one before or after reducing modulo `count` gives the same row.
proof fn lemma_add_one_mod(index: int, count: int)
    requires
        0 <= index,
        0 < count,
    ensures
        (index + 1) % count == if index % count + 1 == count {
            0
        } else {
            index % count + 1
        },
{
    vstd::arithmetic::div_mod::lemma_fundamental_div_mod(index, count);
    let q: int = index / count;
    let r: int = index % count;
    assert(count * q == q * count) by (nonlinear_arith);
    if r + 1 == count {
        assert(index + 1 == (q + 1) * count + 0) by (nonlinear_arith)
            requires
                index == q * count + r,
                r + 1 == count,
        ;
        vstd::arithmetic::div_mod::lemma_fundamental_div_mod_converse(index + 1, count, q + 1, 0);
    } else {
        vstd::arithmetic::div_mod::lemma_fundamental_div_mod_converse(index + 1, count, q, r + 1);
    }
}

/// The pinned names after a toggle of `item`: without its first occurrence
/// if it was pinned, with it at the end if it was not.
pub open spec fn toggled(pinned: Seq<Seq<char>>, item: Seq<char>) -> Seq<Seq<char>> {
    match pinned.index_of_first(item) {
        Some(position) => pinned.remove(position),
        None => pinned.push(item),
    }
}

/// A toggle pins what was not pinned: the name is pinned afterwards
/// exactly if it was not before, provided it was pinned at most once.
pub proof fn lemma_toggled_flips(pinned: Seq<Seq<char>>, item: Seq<char>)
    requires
        pinned.no_duplicates(),
    ensures
        toggled(pinned, item).contains(item) == !pinned.contains(item),
        toggled(pinned, item).no_duplicates(),
{
    pinned.index_of_first_ensures(item);
    let after = toggled(pinned, item);
    match pinned.index_of_first(item) {
        Some(position) => {
            pinned.remove_ensures(position);
            if after.contains(item) {
                let k = choose|k: int| 0 <= k < after.len() && after[k] == item;
                if k < position {
                    assert(after[k] == pinned[k]);
                } else {
                    assert(after[k] == pinned[k + 1]);
                }
            }
            assert forall|a: int, b: int|
                0 <= a < after.len() && 0 <= b < after.len() && a != b implies after[a]
                != after[b] by {
                let a0 = if a < position {
                    a
                } else {
                    a + 1
                };
                let b0 = if b < position {
                    b
                } else {
                    b + 1
                };
                assert(after[a] == pinned[a0]);
                assert(after[b] == pinned[b0]);
            }
        },
        None => {
            assert(after[after.len() - 1] == item);
        },
    }
}

/// Pins `item`, or unpins it if it is pinned.
pub fn toggle_pin(pinned: &mut Vec<String>, item: &String)
    ensures
        texts(final(pinned)@) == toggled(texts(old(pinned)@), item@),
{
    proof {
        assert(names_of(pinned@) =~= texts(pinned@));
    }
    match find_by_name(pinned, item) {
        Some(position) => {
            pinned.remove(position);
            proof {
                assert(texts(pinned@) =~= texts(old(pinned)@).remove(position as int));
            }
        },
        None => {
            pinned.push(item.clone());
            proof {
                assert(texts(pinned@) =~= texts(old(pinned)@).push(item@));
            }
        },
    }
}

} // verus!
