use stat_roller::Character;
use stat_roller::Confirmation;
use stat_roller::InvalidInputError;
use stat_roller::RollOutcome;
use stat_roller::RollStyle;
use stat_roller::drop_lowest_total;
use stat_roller::parse_confirmation;
use stat_roller::roll_3d6;
use stat_roller::roll_3d6_no_ones;
use stat_roller::roll_4d6;
use stat_roller::roll_die;
use stat_roller::sum_rolls;

fn sum_minus_lowest(raw: &[i32]) -> i32 {
    let sum: i32 = raw.iter().sum();
    let low: i32 = *raw.iter().min().unwrap();
    sum - low
}

#[test]
fn standard_die_stays_in_range() {
    for _ in 0..200 {
        let v = roll_die(1, 6);
        assert!((1..=6).contains(&v));
    }
}

#[test]
fn reroll_ones_die_never_shows_one() {
    for _ in 0..200 {
        let v = roll_die(2, 6);
        assert!((2..=6).contains(&v));
        assert_ne!(v, 1);
    }
}

#[test]
fn die_is_not_constant() {
    let first = roll_die(1, 6);
    let mut saw_other = false;
    for _ in 0..200 {
        if roll_die(1, 6) != first {
            saw_other = true;
        }
    }
    assert!(saw_other);
}

#[test]
fn roll_4d6_gives_four_standard_faces() {
    for _ in 0..50 {
        let rolls = roll_4d6();
        assert_eq!(rolls.len(), 4);
        for v in &rolls {
            assert!((1..=6).contains(v));
        }
    }
}

#[test]
fn roll_3d6_gives_three_standard_faces() {
    for _ in 0..50 {
        let rolls = roll_3d6();
        assert_eq!(rolls.len(), 3);
        for v in &rolls {
            assert!((1..=6).contains(v));
        }
    }
}

#[test]
fn roll_3d6_no_ones_never_shows_one() {
    for _ in 0..50 {
        let rolls = roll_3d6_no_ones();
        assert_eq!(rolls.len(), 3);
        for v in &rolls {
            assert!((2..=6).contains(v));
            assert_ne!(*v, 1);
        }
    }
}

#[test]
fn selection_maps_one_two_three() {
    assert_eq!(RollStyle::from_selection("1"), Ok(RollStyle::FourD6DropLowest));
    assert_eq!(RollStyle::from_selection("2"), Ok(RollStyle::ThreeD6RerollOnes));
    assert_eq!(RollStyle::from_selection("3"), Ok(RollStyle::ThreeD6InOrder));
}

#[test]
fn selection_rejects_everything_else() {
    assert_eq!(RollStyle::from_selection("4"), Err(InvalidInputError));
    assert_eq!(RollStyle::from_selection(""), Err(InvalidInputError));
    assert_eq!(RollStyle::from_selection("abc"), Err(InvalidInputError));
    assert_eq!(RollStyle::from_selection("12"), Err(InvalidInputError));
    assert_eq!(RollStyle::from_selection("y"), Err(InvalidInputError));
}

#[test]
fn selection_succeeds_on_nth_attempt() {
    // A bounded retry harness: invalid answers are rejected and the prompt
    // would repeat, until a valid answer arrives.
    let answers = ["", "4", "abc", "2"];
    let mut chosen = None;
    let mut attempts = 0;
    for a in &answers {
        attempts += 1;
        match RollStyle::from_selection(a) {
            Ok(style) => {
                chosen = Some(style);
                break;
            }
            Err(InvalidInputError) => {}
        }
    }
    assert_eq!(attempts, 4);
    assert_eq!(chosen, Some(RollStyle::ThreeD6RerollOnes));
}

#[test]
fn drop_lowest_drops_exactly_the_lowest() {
    assert_eq!(drop_lowest_total(&vec![2, 5, 1, 4]), 11);
    assert_eq!(drop_lowest_total(&vec![6, 6, 6, 6]), 18);
    assert_eq!(drop_lowest_total(&vec![1, 1, 1, 1]), 3);
    assert_eq!(drop_lowest_total(&vec![3, 3, 5, 2]), 11);
}

#[test]
fn sum_rolls_is_the_plain_sum() {
    assert_eq!(sum_rolls(&vec![2, 3, 4]), 9);
    assert_eq!(sum_rolls(&vec![6, 6, 6]), 18);
    assert_eq!(sum_rolls(&vec![2, 2, 2]), 6);
}

#[test]
fn confirmation_maps_y_n_and_rejects_the_rest() {
    assert_eq!(parse_confirmation("y"), Confirmation::Proceed);
    assert_eq!(parse_confirmation("n"), Confirmation::Abort);
    assert_eq!(parse_confirmation(""), Confirmation::Invalid);
    assert_eq!(parse_confirmation("x"), Confirmation::Invalid);
    assert_eq!(parse_confirmation("yes"), Confirmation::Invalid);
    assert_eq!(parse_confirmation("N"), Confirmation::Invalid);
}

#[test]
fn labels_match_the_menu() {
    assert_eq!(RollStyle::FourD6DropLowest.label(), "4d6-drop-low");
    assert_eq!(RollStyle::ThreeD6RerollOnes.label(), "3d6-reroll-1's");
    assert_eq!(RollStyle::ThreeD6InOrder.label(), "3d6-in-order");
}

#[test]
fn invalid_input_message() {
    assert_eq!(InvalidInputError.message(), "Invalid input");
}

#[test]
fn new_character_has_defaults() {
    let c = Character::new();
    assert_eq!(c.name, "Default");
    assert_eq!(c.rollstyle, RollStyle::FourD6DropLowest);
    assert_eq!(c.stats.len(), 6);
    let names = ["STR", "DEX", "CON", "INT", "WIS", "CHA"];
    for (stat, expected) in c.stats.iter().zip(names.iter()) {
        assert_eq!(stat.name, *expected);
        assert_eq!(stat.value, 10);
    }
}

#[test]
fn update_rollstyle_changes_only_the_style() {
    let mut c = Character::new();
    c.update_rollstyle(RollStyle::ThreeD6InOrder);
    assert_eq!(c.rollstyle, RollStyle::ThreeD6InOrder);
    assert_eq!(c.name, "Default");
    assert_eq!(c.stats.len(), 6);
    for stat in &c.stats {
        assert_eq!(stat.value, 10);
    }
}

#[test]
fn roll_stats_drop_lowest_returns_six_totals() {
    let mut c = Character::new();
    let report = c.roll_stats();
    assert_eq!(report.raws.len(), 6);
    for raw in &report.raws {
        assert_eq!(raw.len(), 4);
        for v in raw {
            assert!((1..=6).contains(v));
        }
    }
    match report.outcome {
        RollOutcome::Totals(totals) => {
            assert_eq!(totals.len(), 6);
            for (total, raw) in totals.iter().zip(report.raws.iter()) {
                assert_eq!(*total, sum_minus_lowest(raw));
            }
        }
        RollOutcome::AppliedInOrder => panic!("drop-lowest must return totals"),
    }
}

#[test]
fn roll_stats_drop_lowest_leaves_character_unchanged() {
    let mut c = Character::new();
    let _ = c.roll_stats();
    assert_eq!(c.name, "Default");
    assert_eq!(c.rollstyle, RollStyle::FourD6DropLowest);
    for stat in &c.stats {
        assert_eq!(stat.value, 10);
    }
}

#[test]
fn roll_stats_reroll_ones_sums_three_dice_without_ones() {
    let mut c = Character::new();
    c.update_rollstyle(RollStyle::ThreeD6RerollOnes);
    let report = c.roll_stats();
    assert_eq!(report.raws.len(), 6);
    for raw in &report.raws {
        assert_eq!(raw.len(), 3);
        for v in raw {
            assert!((2..=6).contains(v));
            assert_ne!(*v, 1);
        }
    }
    match report.outcome {
        RollOutcome::Totals(totals) => {
            assert_eq!(totals.len(), 6);
            for (total, raw) in totals.iter().zip(report.raws.iter()) {
                let sum: i32 = raw.iter().sum();
                assert_eq!(*total, sum);
            }
        }
        RollOutcome::AppliedInOrder => panic!("reroll-ones must return totals"),
    }
}

#[test]
fn roll_stats_reroll_ones_leaves_character_unchanged() {
    let mut c = Character::new();
    c.update_rollstyle(RollStyle::ThreeD6RerollOnes);
    let _ = c.roll_stats();
    assert_eq!(c.name, "Default");
    assert_eq!(c.rollstyle, RollStyle::ThreeD6RerollOnes);
    for stat in &c.stats {
        assert_eq!(stat.value, 10);
    }
}

#[test]
fn roll_stats_in_order_writes_each_slot_and_returns_no_totals() {
    let mut c = Character::new();
    c.update_rollstyle(RollStyle::ThreeD6InOrder);
    let report = c.roll_stats();
    assert!(matches!(report.outcome, RollOutcome::AppliedInOrder));
    assert_eq!(report.raws.len(), 6);
    let names = ["STR", "DEX", "CON", "INT", "WIS", "CHA"];
    assert_eq!(c.stats.len(), 6);
    for i in 0..6 {
        let raw = &report.raws[i];
        assert_eq!(raw.len(), 3);
        for v in raw {
            assert!((1..=6).contains(v));
        }
        let sum: i32 = raw.iter().sum();
        assert_eq!(c.stats[i].value, sum);
        assert_eq!(c.stats[i].name, names[i]);
    }
    assert_eq!(c.name, "Default");
    assert_eq!(c.rollstyle, RollStyle::ThreeD6InOrder);
}
