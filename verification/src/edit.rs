//! The field edits the interactive shell applies to a bundle: in
//! particular, how the license inputs — an identifier, a file, or
//! both — are resolved into one action.

use vstd::prelude::*;

use crate::bundle::Package;

verus! {

/// What a license edit amounts to.
#[derive(Debug, Clone, PartialEq)]
pub enum LicenseAction {
    /// Only the identifier was given.
    SetID(String),
    /// Both the identifier and the license file were given.
    SetIDAndFile(String, String),
    /// Only the file was given; the identifier would have to be read
    /// out of it.
    GetIDFromFile(String),
    /// Neither was given.
    Bad,
}

/// Resolves the license inputs: a file alone asks for detection, an
/// identifier alone just sets it, both set both, and neither is an
/// error.
pub fn detect_license_action(id: Option<String>, file: Option<String>) -> (r: LicenseAction)
    ensures
        match (id, file) {
            (Some(i), Some(f)) => r matches LicenseAction::SetIDAndFile(ri, rf) && ri == i && rf
                == f,
            (Some(i), None) => r matches LicenseAction::SetID(ri) && ri == i,
            (None, Some(f)) => r matches LicenseAction::GetIDFromFile(rf) && rf == f,
            (None, None) => r == LicenseAction::Bad,
        },
{
    match file {
        Some(f) => match id {
            Some(i) => LicenseAction::SetIDAndFile(i, f),
            None => LicenseAction::GetIDFromFile(f),
        },
        None => match id {
            Some(i) => LicenseAction::SetID(i),
            None => LicenseAction::Bad,
        },
    }
}

/// Applies a resolved license action to a package; the two actions
/// that cannot be applied leave it untouched and say so.
pub fn apply_license_action(pkg: &mut Package, action: LicenseAction) -> (r: bool)
    ensures
        match action {
            LicenseAction::SetID(i) => {
                &&& r
                &&& final(pkg).license == Some(i)
                &&& final(pkg).license_file == old(pkg).license_file
            },
            LicenseAction::SetIDAndFile(i, f) => {
                &&& r
                &&& final(pkg).license == Some(i)
                &&& final(pkg).license_file == Some(f)
            },
            LicenseAction::GetIDFromFile(_) | LicenseAction::Bad => {
                &&& !r
                &&& *final(pkg) == *old(pkg)
            },
        },
        (Package { license: old(pkg).license, license_file: old(pkg).license_file, ..*final(pkg) })
            == *old(pkg),
{
    match action {
        LicenseAction::SetID(i) => {
            pkg.license = Some(i);
            true
        },
        LicenseAction::SetIDAndFile(i, f) => {
            pkg.license = Some(i);
            pkg.license_file = Some(f);
            true
        },
        LicenseAction::GetIDFromFile(_) => false,
        LicenseAction::Bad => false,
    }
}

} // verus!
