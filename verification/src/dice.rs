//! Dice: drawing single die faces from the process-wide random source and
//! the arithmetic that combines a raw roll set into one ability-score
//! total.

use vstd::prelude::*;

verus! {

/// The sum of a roll set's faces.
pub open spec fn dice_sum(s: Seq<i32>) -> int
    decreases s.len(),
{
    if s.len() == 0 {
        0
    } else {
        dice_sum(s.drop_last()) + s.last() as int
    }
}

/// The smallest face in a roll set (0 for an empty set, which never
/// arises: every roll set holds three or four dice).
pub open spec fn dice_min(s: Seq<i32>) -> int
    decreases s.len(),
{
    if s.len() == 0 {
        0
    } else if s.len() == 1 {
        s[0] as int
    } else {
        let m = dice_min(s.drop_last());
        if s.last() as int <= m {
            s.last() as int
        } else {
            m
        }
    }
}

/// Every face in the roll set lies in the closed interval [lo, hi].
pub open spec fn all_in_range(s: Seq<i32>, lo: int, hi: int) -> bool {
    forall|i: int| 0 <= i < s.len() ==> lo <= #[trigger] s[i] as int <= hi
}

/// Relies on rand's `random_range`: the result is drawn uniformly from the
/// given closed range; the call panics only on an empty range, which the
/// precondition excludes.
#[verifier::external_body]
fn draw_die(min: i32, max: i32) -> (r: i32)
    requires
        min <= max,
    ensures
        min <= r <= max,
{
    rand::random_range(min..=max)
}

/// One die roll, uniform over the closed interval [min, max]. The two call
/// shapes used are the standard die [1,6] and the "reroll-ones" die [2,6],
/// where ones are excluded from the sample space outright.
pub fn roll_die(min: i32, max: i32) -> (r: i32)
    requires
        min <= max,
    ensures
        min <= r <= max,
{
    draw_die(min, max)
}

/// Three standard dice, each in [1,6], in roll order.
pub fn roll_3d6() -> (rolls: Vec<i32>)
    ensures
        rolls@.len() == 3,
        all_in_range(rolls@, 1, 6),
{
    roll_dice(3, 1)
}

/// Three dice that can never show a one: each in [2,6], in roll order.
pub fn roll_3d6_no_ones() -> (rolls: Vec<i32>)
    ensures
        rolls@.len() == 3,
        all_in_range(rolls@, 2, 6),
{
    roll_dice(3, 2)
}

/// Four standard dice, each in [1,6], in roll order.
pub fn roll_4d6() -> (rolls: Vec<i32>)
    ensures
        rolls@.len() == 4,
        all_in_range(rolls@, 1, 6),
{
    roll_dice(4, 1)
}

/// `count` dice, each in [lo,6], in roll order.
fn roll_dice(count: usize, lo: i32) -> (rolls: Vec<i32>)
    requires
        1 <= lo <= 6,
    ensures
        rolls@.len() == count,
        all_in_range(rolls@, lo as int, 6),
{
    let mut rolls: Vec<i32> = Vec::new();
    let mut i: usize = 0;
    while i < count
        invariant
            i <= count,
            rolls@.len() == i,
            1 <= lo <= 6,
            all_in_range(rolls@, lo as int, 6),
        decreases count - i,
    {
        rolls.push(roll_die(lo, 6));
        i = i + 1;
    }
    rolls
}

/// The total of a whole roll set: the plain sum of its faces.
pub fn sum_rolls(rolls: &Vec<i32>) -> (total: i32)
    requires
        rolls@.len() <= 4,
        all_in_range(rolls@, 1, 6),
    ensures
        total as int == dice_sum(rolls@),
{
    let mut total: i32 = 0;
    let mut i: usize = 0;
    while i < rolls.len()
        invariant
            i <= rolls@.len() <= 4,
            all_in_range(rolls@, 1, 6),
            total as int == dice_sum(rolls@.take(i as int)),
            total as int <= 6 * i as int,
            0 <= total,
        decreases rolls@.len() - i,
    {
        proof {
            assert(rolls@.take(i as int + 1).drop_last() =~= rolls@.take(i as int));
            assert(rolls@.take(i as int + 1).last() == rolls@[i as int]);
        }
        total = total + rolls[i];
        i = i + 1;
    }
    proof {
        assert(rolls@.take(rolls@.len() as int) =~= rolls@);
    }
    total
}

/// The total under the drop-lowest rule: the sum of all faces minus the
/// single smallest face.
pub fn drop_lowest_total(rolls: &Vec<i32>) -> (total: i32)
    requires
        1 <= rolls@.len() <= 4,
        all_in_range(rolls@, 1, 6),
    ensures
        total as int == dice_sum(rolls@) - dice_min(rolls@),
{
    let mut sum: i32 = rolls[0];
    let mut low: i32 = rolls[0];
    let mut i: usize = 1;
    proof {
        assert(rolls@.take(1).drop_last() =~= Seq::<i32>::empty());
        assert(dice_sum(Seq::<i32>::empty()) == 0);
        assert(rolls@.take(1).last() == rolls@[0]);
    }
    while i < rolls.len()
        invariant
            1 <= i <= rolls@.len() <= 4,
            all_in_range(rolls@, 1, 6),
            sum as int == dice_sum(rolls@.take(i as int)),
            low as int == dice_min(rolls@.take(i as int)),
            sum as int <= 6 * i as int,
            0 <= sum,
            1 <= low <= 6,
        decreases rolls@.len() - i,
    {
        proof {
            assert(rolls@.take(i as int + 1).drop_last() =~= rolls@.take(i as int));
            assert(rolls@.take(i as int + 1).last() == rolls@[i as int]);
        }
        sum = sum + rolls[i];
        if rolls[i] < low {
            low = rolls[i];
        }
        i = i + 1;
    }
    proof {
        assert(rolls@.take(rolls@.len() as int) =~= rolls@);
    }
    sum - low
}

} // verus!
