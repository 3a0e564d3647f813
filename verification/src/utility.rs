use vstd::prelude::*;

use crate::codec::eq_str;

verus! {

/// A command the utility does not know.
#[derive(Debug, PartialEq)]
pub enum CommandError {
    Invalid(String),
}

impl CommandError {
    /// The error's one-line text.
    pub fn message(&self) -> (r: String)
        ensures
            self matches CommandError::Invalid(arg) ==> r@ == "Invalid Command. '"@ + arg@
                + "' is invalid."@,
    {
        match self {
            CommandError::Invalid(arg) => {
                let mut s = String::new();
                s.append("Invalid Command. '");
                s.append(arg.as_str());
                s.append("' is invalid.");
                proof {
                    assert(s@ =~= "Invalid Command. '"@ + arg@ + "' is invalid."@);
                }
                s
            },
        }
    }
}

/// What the caller is to do for a recognised command.
#[derive(Debug, PartialEq, Eq, Structural)]
pub enum UtilityAction {
    ShowEnvironment,
    ShowWorkingDirectory,
    ShowUser,
    ShowHelp,
}

/// Whether `run` maps the input to the given action.
pub open spec fn spec_action(input: Seq<char>, action: UtilityAction) -> bool {
    match action {
        UtilityAction::ShowEnvironment => input == "-e"@ || input == "-env"@,
        UtilityAction::ShowWorkingDirectory => input == "-w"@ || input == "-cwd"@,
        UtilityAction::ShowUser => input == "-u"@ || input == "-usr"@,
        UtilityAction::ShowHelp => input == "-h"@ || input == "help"@,
    }
}

/// The tiny system utility: maps a command-line option to the action the
/// caller is to carry out.
pub struct Utility {}

impl Utility {
    /// Recognises the option and says what to do; anything else comes back
    /// as the invalid-command error carrying the input.
    pub fn run(input: &str) -> (r: Result<UtilityAction, CommandError>)
        ensures
            r matches Ok(action) ==> spec_action(input@, action),
            r matches Err(CommandError::Invalid(arg)) ==> arg@ == input@ && forall|
                a: UtilityAction,
            | !spec_action(input@, a),
    {
        proof {
            reveal_strlit("-e");
            reveal_strlit("-env");
            reveal_strlit("-w");
            reveal_strlit("-cwd");
            reveal_strlit("-u");
            reveal_strlit("-usr");
            reveal_strlit("-h");
            reveal_strlit("help");
        }
        if eq_str(input, "-e") || eq_str(input, "-env") {
            Ok(UtilityAction::ShowEnvironment)
        } else if eq_str(input, "-w") || eq_str(input, "-cwd") {
            Ok(UtilityAction::ShowWorkingDirectory)
        } else if eq_str(input, "-u") || eq_str(input, "-usr") {
            Ok(UtilityAction::ShowUser)
        } else if eq_str(input, "-h") || eq_str(input, "help") {
            Ok(UtilityAction::ShowHelp)
        } else {
            Err(CommandError::Invalid(input.to_owned()))
        }
    }
}

} // verus!
