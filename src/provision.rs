//! Decisions of the idempotent create-if-absent of a target directory.
use vstd::prelude::*;

verus! {

/// What a metadata probe found at a path.
#[derive(Clone, Copy, Debug, PartialEq, Eq, Structural)]
pub enum PathProbe {
    Missing,
    Directory,
    NotDirectory,
}

#[derive(Clone, Copy, Debug, PartialEq, Eq, Structural)]
pub enum DirectoryError {
    /// Something that is not a directory occupies the path.
    Conflict,
    /// Creating the path and its missing parents failed.
    CreateFailed,
}

/// The next step of provisioning after a probe.
#[derive(Clone, Copy, Debug, PartialEq, Eq, Structural)]
pub enum DirectoryPlan {
    /// The directory is there: nothing to do.
    Ready,
    /// Create the path with all missing parents; a concurrent creation of the
    /// same path counts as success.
    Create,
    /// Refuse, never overwriting what is there.
    Refuse(DirectoryError),
}

pub open spec fn plan_of(probe: PathProbe) -> DirectoryPlan {
    match probe {
        PathProbe::Missing => DirectoryPlan::Create,
        PathProbe::Directory => DirectoryPlan::Ready,
        PathProbe::NotDirectory => DirectoryPlan::Refuse(DirectoryError::Conflict),
    }
}

pub fn plan_directory(probe: PathProbe) -> (r: DirectoryPlan)
    ensures
        r == plan_of(probe),
{
    match probe {
        PathProbe::Missing => DirectoryPlan::Create,
        PathProbe::Directory => DirectoryPlan::Ready,
        PathProbe::NotDirectory => DirectoryPlan::Refuse(DirectoryError::Conflict),
    }
}

/// The outcome of provisioning once the plan was carried out; `created` is
/// whether the creation, where the plan asked for one, succeeded.
pub fn provision_outcome(plan: DirectoryPlan, created: bool) -> (r: Result<(), DirectoryError>)
    ensures
        r == match plan {
            DirectoryPlan::Ready => Ok(()),
            DirectoryPlan::Create => if created {
                Ok(())
            } else {
                Err(DirectoryError::CreateFailed)
            },
            DirectoryPlan::Refuse(e) => Err(e),
        },
{
    match plan {
        DirectoryPlan::Ready => Ok(()),
        DirectoryPlan::Create => if created {
            Ok(())
        } else {
            Err(DirectoryError::CreateFailed)
        },
        DirectoryPlan::Refuse(e) => Err(e),
    }
}

} // verus!
