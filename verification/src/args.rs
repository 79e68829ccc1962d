//! The decision on an invocation's argument vector.

use vstd::prelude::*;
use crate::errors::RunError;

verus! {

/// Accepts exactly one positional argument, the images directory. `args`
/// is the full argument vector, whose first element is the program name;
/// any other count is a usage error.
pub fn parse_args(args: &Vec<String>) -> (r: Result<String, RunError>)
    ensures
        r is Ok <==> args@.len() == 2,
        r matches Ok(p) ==> p@ == args@[1]@,
        args@.len() != 2 ==> r == Err::<String, RunError>(RunError::Usage),
{
    if args.len() == 2 {
        Ok(args[1].clone())
    } else {
        Err(RunError::Usage)
    }
}

} // verus!
