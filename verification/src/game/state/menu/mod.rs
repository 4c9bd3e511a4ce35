use vstd::prelude::*;

pub mod home;
pub mod load;
pub mod pause;
pub mod visit;

verus! {

/// The entry above `selected` in a menu of `count` entries, wrapping from the
/// first entry to the last.
pub open spec fn nav_up(selected: int, count: int) -> int {
    (selected + count - 1) % count
}

/// The entry below `selected` in a menu of `count` entries, wrapping from the
/// last entry to the first.
pub open spec fn nav_down(selected: int, count: int) -> int {
    (selected + 1) % count
}

/// Moves a menu selection up one entry, wrapping around.
pub fn step_up(selected: usize, count: usize) -> (res: usize)
    requires
        0 < count,
    ensures
        res as int == nav_up(selected as int, count as int),
        res < count,
{
    let s = selected % count;
    let res = if s == 0 { count - 1 } else { s - 1 };
    proof {
        let c = count as int;
        vstd::arithmetic::div_mod::lemma_add_mod_noop(selected as int, c - 1, c);
        vstd::arithmetic::div_mod::lemma_small_mod((count - 1) as nat, count as nat);
        if s == 0 {
            vstd::arithmetic::div_mod::lemma_small_mod((count - 1) as nat, count as nat);
        } else {
            vstd::arithmetic::div_mod::lemma_mod_add_multiples_vanish(s - 1, c);
            vstd::arithmetic::div_mod::lemma_small_mod((s - 1) as nat, count as nat);
        }
    }
    res
}

/// Moves a menu selection down one entry, wrapping around.
pub fn step_down(selected: usize, count: usize) -> (res: usize)
    requires
        0 < count,
    ensures
        res as int == nav_down(selected as int, count as int),
        res < count,
{
    let s = selected % count;
    let res = if s + 1 == count { 0 } else { s + 1 };
    proof {
        let c = count as int;
        vstd::arithmetic::div_mod::lemma_add_mod_noop(selected as int, 1, c);
        if count == 1 {
            assert(1int % 1 == 0);
        } else {
            vstd::arithmetic::div_mod::lemma_small_mod(1, count as nat);
        }
        if s + 1 == count {
            vstd::arithmetic::div_mod::lemma_mod_self_0(c);
        } else {
            vstd::arithmetic::div_mod::lemma_small_mod((s + 1) as nat, count as nat);
        }
    }
    res
}

/// Menu navigation law: moving down after moving up (or up after down) returns
/// to the same entry, and every move lands on an entry of the menu.
pub proof fn lemma_nav_round_trip(selected: int, count: int)
    requires
        0 <= selected < count,
    ensures
        nav_down(nav_up(selected, count), count) == selected,
        nav_up(nav_down(selected, count), count) == selected,
        0 <= nav_up(selected, count) < count,
        0 <= nav_down(selected, count) < count,
{
    if selected == 0 {
        vstd::arithmetic::div_mod::lemma_small_mod((count - 1) as nat, count as nat);
        vstd::arithmetic::div_mod::lemma_mod_self_0(count);
    } else {
        vstd::arithmetic::div_mod::lemma_mod_add_multiples_vanish(selected - 1, count);
        vstd::arithmetic::div_mod::lemma_small_mod((selected - 1) as nat, count as nat);
        vstd::arithmetic::div_mod::lemma_small_mod(selected as nat, count as nat);
    }
    if selected == count - 1 {
        vstd::arithmetic::div_mod::lemma_mod_self_0(count);
        vstd::arithmetic::div_mod::lemma_small_mod((count - 1) as nat, count as nat);
    } else {
        vstd::arithmetic::div_mod::lemma_small_mod((selected + 1) as nat, count as nat);
        vstd::arithmetic::div_mod::lemma_mod_add_multiples_vanish(selected, count);
        vstd::arithmetic::div_mod::lemma_small_mod(selected as nat, count as nat);
    }
}

} // verus!
