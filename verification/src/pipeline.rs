//! The staged state machine of a package build: download, unpack,
//! build, pack, publish — with the early-stop switch, the clean
//! switch, and the choice of packaging branch.

use vstd::prelude::*;
use vstd::string::StringExecFns;

use crate::gate::{DistributionType, Gate};
use crate::workspace::Workspace;

verus! {

/// The stages of a package build, in the order they run.
#[derive(Debug, Clone, Copy, PartialEq, Eq, PartialOrd, Ord, Structural)]
pub enum BuildSteps {
    Download,
    Unpack,
    Build,
    Pack,
    Publish,
}

/// Whether the run stops after the stage that just completed.
pub fn should_stop_after(stop_on_step: &Option<BuildSteps>, completed: BuildSteps) -> (r: bool)
    ensures
        r == (stop_on_step matches Some(s) && s == completed),
{
    match stop_on_step {
        Some(s) => *s == completed,
        None => false,
    }
}

/// Which packaging branch runs at the pack stage: a gate that
/// declares a tarball distribution selects the tarball path,
/// everything else publishes into the IPS repository.
pub fn select_distribution(gate: &Option<Gate>) -> (r: DistributionType)
    ensures
        r == match *gate {
            Some(g) => match g.distribution {
                Some(d) => d.distribution_type,
                None => DistributionType::IPS,
            },
            None => DistributionType::IPS,
        },
{
    match gate {
        Some(g) => match &g.distribution {
            Some(d) => d.distribution_type,
            None => DistributionType::IPS,
        },
        None => DistributionType::IPS,
    }
}

/// The directories a clean run empties before the first stage.
pub fn clean_dirs(wks: &Workspace) -> (r: Vec<String>)
    ensures
        r@.len() == 4,
        r@[0]@ == crate::paths::spec_join(wks.path@, "downloads"@),
        r@[1]@ == crate::paths::spec_join(wks.path@, "build"@),
        r@[2]@ == crate::paths::spec_join(wks.path@, "proto"@),
        r@[3]@ == crate::paths::spec_join(wks.path@, "manifests"@),
{
    let mut dirs: Vec<String> = Vec::new();
    dirs.push(wks.get_or_create_download_dir());
    dirs.push(wks.get_or_create_build_dir());
    dirs.push(wks.get_or_create_prototype_dir());
    dirs.push(wks.get_or_create_manifest_dir());
    dirs
}

/// A cross-compilation target family.
#[derive(Debug, Clone, Copy, PartialEq, Eq, Structural)]
pub enum CrossTriple {
    Arm,
    Riscv,
    Sparc,
}

impl CrossTriple {
    /// The name of the target family.
    pub fn to_string(&self) -> (r: String)
        ensures
            r@ == match *self {
                CrossTriple::Arm => "arm"@,
                CrossTriple::Riscv => "riscv"@,
                CrossTriple::Sparc => "sparc"@,
            },
    {
        match self {
            CrossTriple::Arm => String::from_str("arm"),
            CrossTriple::Riscv => String::from_str("riscv"),
            CrossTriple::Sparc => String::from_str("sparc"),
        }
    }
}

} // verus!
