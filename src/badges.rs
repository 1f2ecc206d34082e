//! Decoding a person's public flags into the badges they stand for.

use vstd::prelude::*;
use crate::model::InviteData;

verus! {

/// How many badges the table holds.
pub const BADGE_COUNT: usize = 15;

/// The label of the badge at position `i` of the table.
pub open spec fn badge_label(i: int) -> Seq<char> {
    if i == 0 {
        "Staff"@
    } else if i == 1 {
        "Partnered Server Owner"@
    } else if i == 2 {
        "HypeSquad Events"@
    } else if i == 3 {
        "Bug Hunter Level 1"@
    } else if i == 4 {
        "HypeSquad Bravery"@
    } else if i == 5 {
        "HypeSquad Brilliance"@
    } else if i == 6 {
        "HypeSquad Balance"@
    } else if i == 7 {
        "Premium Early Supporter"@
    } else if i == 8 {
        "Team Pseudo User"@
    } else if i == 9 {
        "Bug Hunter Level 2"@
    } else if i == 10 {
        "Verified Bot"@
    } else if i == 11 {
        "Verified Developer"@
    } else if i == 12 {
        "Certified Moderator"@
    } else if i == 13 {
        "Bot Http Interactions"@
    } else {
        "Active Developer"@
    }
}

/// The bit of the badge at position `i` of the table.
pub open spec fn badge_bit(i: int) -> u64 {
    if i == 0 {
        1
    } else if i == 1 {
        2
    } else if i == 2 {
        4
    } else if i == 3 {
        8
    } else if i == 4 {
        64
    } else if i == 5 {
        128
    } else if i == 6 {
        256
    } else if i == 7 {
        512
    } else if i == 8 {
        1024
    } else if i == 9 {
        16384
    } else if i == 10 {
        65536
    } else if i == 11 {
        131072
    } else if i == 12 {
        262144
    } else if i == 13 {
        524288
    } else {
        4194304
    }
}

/// Whether `mask` carries the badge at position `i`.
pub open spec fn has_badge(mask: u64, i: int) -> bool {
    mask & badge_bit(i) == badge_bit(i)
}

/// The table positions, below `n`, of the badges that `mask` carries, in table order.
pub open spec fn badge_positions(mask: u64, n: nat) -> Seq<int>
    decreases n,
{
    if n == 0 {
        Seq::empty()
    } else {
        let prev = badge_positions(mask, (n - 1) as nat);
        if has_badge(mask, n - 1) {
            prev.push(n - 1)
        } else {
            prev
        }
    }
}

/// The labels of the badges that `mask` carries, in table order.
pub open spec fn badges_of(mask: u64) -> Seq<Seq<char>> {
    badge_positions(mask, BADGE_COUNT as nat).map_values(|i: int| badge_label(i))
}

/// The views of a sequence of strings.
pub open spec fn views(v: Seq<String>) -> Seq<Seq<char>> {
    v.map_values(|s: String| s@)
}

/// The positions found below `n` are increasing, below `n`, carried by
/// `mask`, and they are all the positions below `n` that `mask` carries.
proof fn lemma_positions_below(mask: u64, n: nat)
    ensures
        forall|a: int, b: int|
            0 <= a < b < badge_positions(mask, n).len() ==> badge_positions(mask, n)[a]
                < badge_positions(mask, n)[b],
        forall|a: int|
            0 <= a < badge_positions(mask, n).len() ==> 0 <= #[trigger] badge_positions(mask, n)[a]
                < n && has_badge(mask, badge_positions(mask, n)[a]),
        forall|i: int| 0 <= i < n && has_badge(mask, i) ==> badge_positions(mask, n).contains(i),
    decreases n,
{
    if n > 0 {
        lemma_positions_below(mask, (n - 1) as nat);
        let prev = badge_positions(mask, (n - 1) as nat);
        if has_badge(mask, n - 1) {
            assert(prev.push(n - 1)[prev.len() as int] == n - 1);
            assert forall|i: int| 0 <= i < n && has_badge(mask, i) implies badge_positions(
                mask,
                n,
            ).contains(i) by {
                if i < n - 1 {
                    let k = choose|k: int| 0 <= k < prev.len() && prev[k] == i;
                    assert(badge_positions(mask, n)[k] == i);
                } else {
                    assert(badge_positions(mask, n)[prev.len() as int] == i);
                }
            }
        }
    }
}

/// The badges come out in the order of the table, whatever the mask: the
/// labels are those of increasing table positions, and a label stands there
/// exactly when the mask carries its bit.
pub proof fn lemma_badges_follow_table(mask: u64)
    ensures
        badges_of(mask).len() == badge_positions(mask, BADGE_COUNT as nat).len(),
        forall|a: int, b: int|
            0 <= a < b < badge_positions(mask, BADGE_COUNT as nat).len() ==> badge_positions(
                mask,
                BADGE_COUNT as nat,
            )[a] < badge_positions(mask, BADGE_COUNT as nat)[b],
        forall|a: int|
            0 <= a < badges_of(mask).len() ==> #[trigger] badges_of(mask)[a] == badge_label(
                badge_positions(mask, BADGE_COUNT as nat)[a],
            ) && has_badge(mask, badge_positions(mask, BADGE_COUNT as nat)[a]),
        forall|i: int|
            0 <= i < BADGE_COUNT && has_badge(mask, i) ==> badge_positions(
                mask,
                BADGE_COUNT as nat,
            ).contains(i),
{
    lemma_positions_below(mask, BADGE_COUNT as nat);
}

/// A mask of zero carries no badge.
pub proof fn lemma_zero_mask_has_no_badges()
    ensures
        badges_of(0) == Seq::<Seq<char>>::empty(),
{
    assert forall|i: int| 0 <= i < BADGE_COUNT implies !has_badge(0, i) by {
        let b = badge_bit(i);
        assert(b != 0);
        assert(b != 0 ==> 0u64 & b != b) by (bit_vector);
    }
    lemma_zero_positions(BADGE_COUNT as nat);
    assert(badges_of(0) =~= Seq::<Seq<char>>::empty());
}

proof fn lemma_zero_positions(n: nat)
    requires
        n <= BADGE_COUNT,
        forall|i: int| 0 <= i < BADGE_COUNT ==> !has_badge(0, i),
    ensures
        badge_positions(0, n).len() == 0,
    decreases n,
{
    if n > 0 {
        lemma_zero_positions((n - 1) as nat);
    }
}

/// The entry at position `i` of the badge table.
fn badge_entry(i: usize) -> (r: (&'static str, u64))
    requires
        i < BADGE_COUNT,
    ensures
        r.0@ == badge_label(i as int),
        r.1 == badge_bit(i as int),
{
    match i {
        0 => ("Staff", 1),
        1 => ("Partnered Server Owner", 2),
        2 => ("HypeSquad Events", 4),
        3 => ("Bug Hunter Level 1", 8),
        4 => ("HypeSquad Bravery", 64),
        5 => ("HypeSquad Brilliance", 128),
        6 => ("HypeSquad Balance", 256),
        7 => ("Premium Early Supporter", 512),
        8 => ("Team Pseudo User", 1024),
        9 => ("Bug Hunter Level 2", 16384),
        10 => ("Verified Bot", 65536),
        11 => ("Verified Developer", 131072),
        12 => ("Certified Moderator", 262144),
        13 => ("Bot Http Interactions", 524288),
        _ => ("Active Developer", 4194304),
    }
}

/// The labels of the badges that `mask` carries, in the order of the table.
pub fn badge_labels(mask: u64) -> (r: Vec<String>)
    ensures
        views(r@) == badges_of(mask),
{
    let mut r: Vec<String> = Vec::new();
    let mut i: usize = 0;
    while i < BADGE_COUNT
        invariant
            i <= BADGE_COUNT,
            views(r@) == badge_positions(mask, i as nat).map_values(|j: int| badge_label(j)),
        decreases BADGE_COUNT - i,
    {
        let (label, bit) = badge_entry(i);
        let ghost before = r@;
        if mask & bit == bit {
            r.push(String::from_str(label));
            assert(views(r@) =~= views(before).push(label@));
        }
        i = i + 1;
        assert(badge_positions(mask, i as nat).map_values(|j: int| badge_label(j)) =~= views(r@));
    }
    r
}

impl InviteData {
    /// The inviter's badges: `None` when there is no inviter or their public
    /// flags are zero, else the labels of the flags they carry.
    pub fn check_flags(&self) -> (r: Option<Vec<String>>)
        ensures
            match self.inviter {
                None => r is None,
                Some(inv) => if inv.public_flags == 0 {
                    r is None
                } else {
                    r is Some && views(r->0@) == badges_of(inv.public_flags)
                },
            },
    {
        match &self.inviter {
            None => None,
            Some(inv) => {
                if inv.public_flags == 0 {
                    None
                } else {
                    Some(badge_labels(inv.public_flags))
                }
            },
        }
    }
}

} // verus!
