//! Generation of ability-score blocks for a tabletop role-playing
//! character, under one of three dice-rolling conventions.
//!
//! The library holds the verified core: mapping the user's selection to a
//! rolling convention, the dice arithmetic (sums, dropping the lowest die),
//! and the character with its six ability scores. Reading lines, printing
//! and process exit live outside the library.

mod character;
mod dice;
mod style;

pub use character::Character;
pub use character::RollOutcome;
pub use character::RollReport;
pub use character::Stat;
pub use character::stat_name;
pub use dice::all_in_range;
pub use dice::dice_min;
pub use dice::dice_sum;
pub use dice::drop_lowest_total;
pub use dice::roll_3d6;
pub use dice::roll_3d6_no_ones;
pub use dice::roll_4d6;
pub use dice::roll_die;
pub use dice::sum_rolls;
pub use style::Confirmation;
pub use style::InvalidInputError;
pub use style::RollStyle;
pub use style::parse_confirmation;
