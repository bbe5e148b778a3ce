use vstd::prelude::*;

verus! {

/// Backs up the working directory before hooks are touched. Nothing needs
/// saving so far, so the backup always succeeds.
pub fn git_create_backup() -> (r: Result<(), ()>)
    ensures
        r is Ok,
{
    Ok(())
}

} // verus!
