use vstd::prelude::*;

pub mod errors;
pub mod invocation;
pub mod session;
pub mod supervisor;

verus! {

/// Preparation that must happen before the process forks; there is none.
pub fn prep_for_fork() -> (r: Result<(), ()>)
    ensures
        r is Ok,
{
    Ok(())
}

} // verus!
