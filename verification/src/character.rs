//! The character: a display name, six ability scores in the fixed order
//! STR, DEX, CON, INT, WIS, CHA, and the active rolling convention; and
//! the roll operation that produces one total per ability slot under that
//! convention.

use vstd::prelude::*;
use vstd::string::StringExecFns;

use crate::dice::all_in_range;
use crate::dice::dice_min;
use crate::dice::dice_sum;
use crate::dice::drop_lowest_total;
use crate::dice::roll_3d6;
use crate::dice::roll_3d6_no_ones;
use crate::dice::roll_4d6;
use crate::dice::sum_rolls;
use crate::style::RollStyle;

verus! {

/// One named ability score.
pub struct Stat {
    pub name: String,
    pub value: i32,
}

impl Stat {
    /// A fresh ability score with the given name and value.
    pub fn new(name: &str, value: i32) -> (s: Stat)
        ensures
            s.name@ == name@,
            s.value == value,
    {
        Stat { name: String::from_str(name), value }
    }
}

/// The name of the ability slot at the given position, in the fixed
/// display and assignment order.
pub open spec fn stat_name(i: int) -> Seq<char> {
    if i == 0 {
        "STR"@
    } else if i == 1 {
        "DEX"@
    } else if i == 2 {
        "CON"@
    } else if i == 3 {
        "INT"@
    } else if i == 4 {
        "WIS"@
    } else {
        "CHA"@
    }
}

/// What one roll operation produced, beyond the raw dice: either the six
/// totals by value (the character untouched), or nothing, because the
/// in-order convention wrote the totals into the character's stats.
pub enum RollOutcome {
    /// Six totals, one per ability slot, in slot order.
    Totals(Vec<i32>),
    /// The totals were written into the character's stats in place.
    AppliedInOrder,
}

/// One roll operation's full record: the six raw roll sets in roll order,
/// and the outcome.
pub struct RollReport {
    pub raws: Vec<Vec<i32>>,
    pub outcome: RollOutcome,
}

impl RollReport {
    /// Six raw sets of four standard dice, and six totals computed under
    /// the drop-lowest rule.
    pub open spec fn is_drop_lowest(self) -> bool {
        &&& self.raws@.len() == 6
        &&& forall|i: int|
            0 <= i < 6 ==> (#[trigger] self.raws@[i])@.len() == 4 && all_in_range(
                self.raws@[i]@,
                1,
                6,
            )
        &&& match self.outcome {
            RollOutcome::Totals(t) => t@.len() == 6 && forall|i: int|
                0 <= i < 6 ==> (#[trigger] t@[i]) as int == dice_sum(self.raws@[i]@) - dice_min(
                    self.raws@[i]@,
                ),
            RollOutcome::AppliedInOrder => false,
        }
    }

    /// Six raw sets of three dice that never show a one, and six totals
    /// that are the plain sums.
    pub open spec fn is_reroll_ones(self) -> bool {
        &&& self.raws@.len() == 6
        &&& forall|i: int|
            0 <= i < 6 ==> (#[trigger] self.raws@[i])@.len() == 3 && all_in_range(
                self.raws@[i]@,
                2,
                6,
            )
        &&& match self.outcome {
            RollOutcome::Totals(t) => t@.len() == 6 && forall|i: int|
                0 <= i < 6 ==> (#[trigger] t@[i]) as int == dice_sum(self.raws@[i]@),
            RollOutcome::AppliedInOrder => false,
        }
    }

    /// Six raw sets of three standard dice, and no returned totals: the
    /// sums were applied to the character in place.
    pub open spec fn is_in_order(self) -> bool {
        &&& self.raws@.len() == 6
        &&& forall|i: int|
            0 <= i < 6 ==> (#[trigger] self.raws@[i])@.len() == 3 && all_in_range(
                self.raws@[i]@,
                1,
                6,
            )
        &&& self.outcome matches RollOutcome::AppliedInOrder
    }
}

/// A playable character: a display name, the six ability scores in fixed
/// order, and the active rolling convention.
pub struct Character {
    pub name: String,
    pub stats: Vec<Stat>,
    pub rollstyle: RollStyle,
}

impl Character {
    /// The six ability slots carry the canonical names in the fixed order.
    pub open spec fn has_standard_stats(self) -> bool {
        &&& self.stats@.len() == 6
        &&& forall|i: int| 0 <= i < 6 ==> (#[trigger] self.stats@[i]).name@ == stat_name(i)
    }

    /// A fresh character: named "Default", six ability scores of 10 in the
    /// fixed order, and the default convention, chosen silently without
    /// prompting.
    pub fn new() -> (c: Character)
        ensures
            c.name@ == "Default"@,
            c.rollstyle == RollStyle::FourD6DropLowest,
            c.has_standard_stats(),
            forall|i: int| 0 <= i < 6 ==> (#[trigger] c.stats@[i]).value == 10,
    {
        let mut stats: Vec<Stat> = Vec::new();
        stats.push(Stat::new("STR", 10));
        stats.push(Stat::new("DEX", 10));
        stats.push(Stat::new("CON", 10));
        stats.push(Stat::new("INT", 10));
        stats.push(Stat::new("WIS", 10));
        stats.push(Stat::new("CHA", 10));
        Character { name: String::from_str("Default"), stats, rollstyle: RollStyle::new() }
    }

    /// Replaces the active rolling convention; name and stats are kept.
    pub fn update_rollstyle(&mut self, style: RollStyle)
        ensures
            final(self).rollstyle == style,
            final(self).name == old(self).name,
            final(self).stats == old(self).stats,
    {
        self.rollstyle = style;
    }

    /// Rolls one total per ability slot under the active convention.
    ///
    /// For the drop-lowest and reroll-ones conventions the six totals are
    /// returned by value and the character is left exactly as it was. For
    /// the in-order convention each slot's total is written into that
    /// slot's stored value, in order, and no totals are returned.
    pub fn roll_stats(&mut self) -> (r: RollReport)
        requires
            old(self).stats@.len() == 6,
        ensures
            old(self).rollstyle == RollStyle::FourD6DropLowest ==> r.is_drop_lowest()
                && *final(self) == *old(self),
            old(self).rollstyle == RollStyle::ThreeD6RerollOnes ==> r.is_reroll_ones()
                && *final(self) == *old(self),
            old(self).rollstyle == RollStyle::ThreeD6InOrder ==> {
                &&& r.is_in_order()
                &&& final(self).name == old(self).name
                &&& final(self).rollstyle == old(self).rollstyle
                &&& final(self).stats@.len() == 6
                &&& forall|i: int|
                    0 <= i < 6 ==> (#[trigger] final(self).stats@[i]).name
                        == old(self).stats@[i].name
                        && final(self).stats@[i].value as int == dice_sum(r.raws@[i]@)
            },
    {
        match self.rollstyle {
            RollStyle::FourD6DropLowest => {
                let mut raws: Vec<Vec<i32>> = Vec::new();
                let mut totals: Vec<i32> = Vec::new();
                let mut slot: usize = 0;
                while slot < 6
                    invariant
                        slot <= 6,
                        raws@.len() == slot,
                        totals@.len() == slot,
                        forall|j: int|
                            0 <= j < slot ==> (#[trigger] raws@[j])@.len() == 4 && all_in_range(
                                raws@[j]@,
                                1,
                                6,
                            ),
                        forall|j: int|
                            0 <= j < slot ==> (#[trigger] totals@[j]) as int == dice_sum(raws@[j]@)
                                - dice_min(raws@[j]@),
                    decreases 6 - slot,
                {
                    let raw = roll_4d6();
                    let total = drop_lowest_total(&raw);
                    raws.push(raw);
                    totals.push(total);
                    slot = slot + 1;
                }
                RollReport { raws, outcome: RollOutcome::Totals(totals) }
            },
            RollStyle::ThreeD6RerollOnes => {
                let mut raws: Vec<Vec<i32>> = Vec::new();
                let mut totals: Vec<i32> = Vec::new();
                let mut slot: usize = 0;
                while slot < 6
                    invariant
                        slot <= 6,
                        raws@.len() == slot,
                        totals@.len() == slot,
                        forall|j: int|
                            0 <= j < slot ==> (#[trigger] raws@[j])@.len() == 3 && all_in_range(
                                raws@[j]@,
                                2,
                                6,
                            ),
                        forall|j: int|
                            0 <= j < slot ==> (#[trigger] totals@[j]) as int == dice_sum(raws@[j]@),
                    decreases 6 - slot,
                {
                    let raw = roll_3d6_no_ones();
                    let total = sum_rolls(&raw);
                    raws.push(raw);
                    totals.push(total);
                    slot = slot + 1;
                }
                RollReport { raws, outcome: RollOutcome::Totals(totals) }
            },
            RollStyle::ThreeD6InOrder => {
                let mut raws: Vec<Vec<i32>> = Vec::new();
                let mut slot: usize = 0;
                while slot < 6
                    invariant
                        slot <= 6,
                        raws@.len() == slot,
                        self.stats@.len() == 6,
                        self.name == old(self).name,
                        self.rollstyle == old(self).rollstyle,
                        forall|j: int|
                            0 <= j < slot ==> (#[trigger] raws@[j])@.len() == 3 && all_in_range(
                                raws@[j]@,
                                1,
                                6,
                            ),
                        forall|j: int|
                            0 <= j < slot ==> (#[trigger] self.stats@[j]).name
                                == old(self).stats@[j].name
                                && self.stats@[j].value as int == dice_sum(raws@[j]@),
                        forall|j: int|
                            slot <= j < 6 ==> #[trigger] self.stats@[j] == old(self).stats@[j],
                    decreases 6 - slot,
                {
                    let raw = roll_3d6();
                    let total = sum_rolls(&raw);
                    let name = self.stats[slot].name.clone();
                    self.stats[slot] = Stat { name, value: total };
                    raws.push(raw);
                    slot = slot + 1;
                }
                RollReport { raws, outcome: RollOutcome::AppliedInOrder }
            },
        }
    }
}

} // verus!
