//! The three dice-rolling conventions and the parsing of the answers a
//! user types at the two prompts: the convention selection and the
//! continue/abort confirmation.

use vstd::prelude::*;
use vstd::string::StringExecFns;

verus! {

/// A convention for rolling one ability score.
#[derive(Clone, Copy, PartialEq, Eq, Structural, Debug)]
pub enum RollStyle {
    /// Roll four dice in [1,6], drop the lowest, sum the rest.
    FourD6DropLowest,
    /// Roll three dice in [2,6]: ones are excluded from the sample space.
    ThreeD6RerollOnes,
    /// Roll three dice in [1,6] and assign each total to the next ability
    /// slot in order.
    ThreeD6InOrder,
}

/// The one domain error: the selection prompt received unrecognized input.
#[derive(Clone, Copy, PartialEq, Eq, Structural, Debug)]
pub struct InvalidInputError;

/// The answer given at the continue/abort confirmation prompt.
#[derive(Clone, Copy, PartialEq, Eq, Structural, Debug)]
pub enum Confirmation {
    /// The user typed exactly `y`: go ahead and roll.
    Proceed,
    /// The user typed exactly `n`: stop the whole program.
    Abort,
    /// Anything else: report invalid input and ask again.
    Invalid,
}

/// Relies on str's `PartialEq`: two string slices are equal exactly when
/// they consist of the same characters.
#[verifier::external_body]
fn str_eq(a: &str, b: &str) -> (r: bool)
    ensures
        r == (a@ == b@),
{
    a == b
}

impl RollStyle {
    /// The default convention, used when a character is created without
    /// asking the user.
    pub fn new() -> (r: RollStyle)
        ensures
            r == RollStyle::FourD6DropLowest,
    {
        RollStyle::FourD6DropLowest
    }

    /// The label under which the convention is shown to the user.
    pub open spec fn spec_label(self) -> Seq<char> {
        match self {
            RollStyle::FourD6DropLowest => "4d6-drop-low"@,
            RollStyle::ThreeD6RerollOnes => "3d6-reroll-1's"@,
            RollStyle::ThreeD6InOrder => "3d6-in-order"@,
        }
    }

    /// Human-readable label of the convention.
    pub fn label(&self) -> (s: String)
        ensures
            s@ == self.spec_label(),
    {
        match self {
            RollStyle::FourD6DropLowest => String::from_str("4d6-drop-low"),
            RollStyle::ThreeD6RerollOnes => String::from_str("3d6-reroll-1's"),
            RollStyle::ThreeD6InOrder => String::from_str("3d6-in-order"),
        }
    }

    /// Maps the trimmed text typed at the selection prompt to a convention:
    /// exactly `1`, `2` or `3` select one; everything else is rejected.
    pub fn from_selection(input: &str) -> (r: Result<RollStyle, InvalidInputError>)
        ensures
            input@ == "1"@ ==> r == Ok::<RollStyle, InvalidInputError>(RollStyle::FourD6DropLowest),
            input@ == "2"@ ==> r == Ok::<RollStyle, InvalidInputError>(RollStyle::ThreeD6RerollOnes),
            input@ == "3"@ ==> r == Ok::<RollStyle, InvalidInputError>(RollStyle::ThreeD6InOrder),
            input@ != "1"@ && input@ != "2"@ && input@ != "3"@ ==> r == Err::<RollStyle, InvalidInputError>(InvalidInputError),
    {
        proof {
            reveal_strlit("1");
            reveal_strlit("2");
            reveal_strlit("3");
            assert("1"@[0] == '1');
            assert("2"@[0] == '2');
            assert("3"@[0] == '3');
        }
        if str_eq(input, "1") {
            Ok(RollStyle::FourD6DropLowest)
        } else if str_eq(input, "2") {
            Ok(RollStyle::ThreeD6RerollOnes)
        } else if str_eq(input, "3") {
            Ok(RollStyle::ThreeD6InOrder)
        } else {
            Err(InvalidInputError)
        }
    }
}

impl InvalidInputError {
    /// The message printed after `Error: ` when the selection is rejected.
    pub fn message(&self) -> (s: String)
        ensures
            s@ == "Invalid input"@,
    {
        String::from_str("Invalid input")
    }
}

/// Maps the trimmed text typed at the continue/abort prompt to the action
/// taken: `y` proceeds, `n` aborts the process, anything else is invalid
/// and the prompt repeats.
pub fn parse_confirmation(input: &str) -> (c: Confirmation)
    ensures
        input@ == "y"@ ==> c == Confirmation::Proceed,
        input@ == "n"@ ==> c == Confirmation::Abort,
        input@ != "y"@ && input@ != "n"@ ==> c == Confirmation::Invalid,
{
    proof {
        reveal_strlit("y");
        reveal_strlit("n");
        assert("y"@[0] == 'y');
        assert("n"@[0] == 'n');
    }
    if str_eq(input, "y") {
        Confirmation::Proceed
    } else if str_eq(input, "n") {
        Confirmation::Abort
    } else {
        Confirmation::Invalid
    }
}

} // verus!
