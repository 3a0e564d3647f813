use vstd::prelude::*;

verus! {

/// What can go wrong with the variable-lookup arguments.
#[derive(Debug)]
pub enum SyscoError {
    WrongVariable(String),
    WrongArgumentCount,
}

/// The variable-lookup form takes exactly three arguments: the program
/// name, the option, and the variable's name.
pub fn check_key_arguments(args: &Vec<String>) -> (r: Result<(), SyscoError>)
    ensures
        args@.len() == 3 <==> r is Ok,
        args@.len() != 3 ==> (r matches Err(e) && e is WrongArgumentCount),
{
    if args.len() != 3 {
        return Err(SyscoError::WrongArgumentCount);
    }
    Ok(())
}

} // verus!
