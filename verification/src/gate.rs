//! Gates: release-wide policy documents, each scoping many
//! bundles, carrying shared defaults, manifest transforms, and
//! per-package stubs that merge into individual bundles.

use vstd::prelude::*;
use vstd::string::StringExecFns;

use crate::bundle::{copy_package, pkg_eqv, BundleError, Package};
use crate::doc::{
    child_scalar_of, last_child, prop_last, prop_last_str, scalar_leaf_ok, val_str, value_str_ref,
    Branch, GateItem, Leaf, PkgItem, Prop, Value,
};
use crate::strutil::{spec_join_sep, str_eq};

verus! {

broadcast use vstd::string::group_string_axioms;

/// What can go wrong while reading or using a gate document.
#[derive(Debug, Clone, PartialEq)]
pub enum GateError {
    /// A top-level or child node name outside a gate document's grammar.
    UnknownNode(String),
    /// A property key outside a gate document's grammar.
    UnknownProperty(String),
    /// A node carries the wrong number of arguments.
    WrongArgumentCount(String),
    /// An argument or property holds a scalar of the wrong type.
    WrongValueType(String),
    /// A required node is absent.
    MissingNode(String),
    /// A distribution type string that is neither `tarball` nor `ips`.
    UnknownDistributionType(String),
    /// An embedded package stub was refused by the bundle schema.
    BadPackage(BundleError),
}

/// How a gate's packages are distributed.
#[derive(Debug, Clone, Copy, PartialEq, Eq, Structural)]
pub enum DistributionType {
    Tarbball,
    IPS,
}

impl Default for DistributionType {
    /// The distribution of a gate that names none: an IPS repository.
    fn default() -> (r: Self)
        ensures
            r == DistributionType::IPS,
    {
        DistributionType::IPS
    }
}

/// The distribution type a string names, when it names one.
pub open spec fn dist_type_of(s: Seq<char>) -> Option<DistributionType> {
    if s == "tarball"@ || s == "tar"@ {
        Some(DistributionType::Tarbball)
    } else if s == "ips"@ || s == "IPS"@ {
        Some(DistributionType::IPS)
    } else {
        None
    }
}

impl DistributionType {
    /// Reads a distribution type from its name.
    pub fn from_str(s: &str) -> (r: Result<Self, GateError>)
        ensures
            match r {
                Ok(d) => dist_type_of(s@) == Some(d),
                Err(_) => dist_type_of(s@) is None,
            },
    {
        if str_eq(s, "tarball") || str_eq(s, "tar") {
            Ok(DistributionType::Tarbball)
        } else if str_eq(s, "ips") || str_eq(s, "IPS") {
            Ok(DistributionType::IPS)
        } else {
            Err(GateError::UnknownDistributionType(String::from_str(s)))
        }
    }

    /// The canonical name of this distribution type.
    pub fn to_string(&self) -> (r: String)
        ensures
            r@ == match *self {
                DistributionType::Tarbball => "tarball"@,
                DistributionType::IPS => "ips"@,
            },
    {
        match self {
            DistributionType::Tarbball => String::from_str("tarball"),
            DistributionType::IPS => String::from_str("ips"),
        }
    }
}

/// The distribution declaration of a gate.
#[derive(Debug, Clone, Copy, PartialEq, Eq, Structural)]
pub struct Distribution {
    pub distribution_type: DistributionType,
}

/// One manifest transform of a gate: its action lines and an
/// optional file to pull in after them.
#[derive(Debug, Clone, PartialEq)]
pub struct Transform {
    pub actions: Vec<String>,
    pub include_prop: Option<String>,
}

/// The text of a transform: its lines, newline-joined.
pub open spec fn transform_text(t: Transform) -> Seq<char> {
    spec_join_sep(transform_lines(t), seq!['\n'])
}

/// The lines a transform contributes to the transform file.
pub open spec fn transform_lines(t: Transform) -> Seq<Seq<char>> {
    let acts = t.actions@.map_values(|s: String| s@);
    match t.include_prop {
        Some(p) => acts.push("<include "@ + p@ + ">"@),
        None => acts,
    }
}

impl Transform {
    /// The text of this transform: its action lines, then, when an
    /// extra file is named, a line that pulls that file in.
    pub fn to_string(&self) -> (r: String)
        ensures
            r@ == transform_text(*self),
    {
        proof {
            reveal_strlit("\n");
            assert("\n"@ =~= seq!['\n']);
        }
        match &self.include_prop {
            Some(p) => {
                let mut lines: Vec<String> = Vec::new();
                let mut i: usize = 0;
                while i < self.actions.len()
                    invariant
                        i <= self.actions@.len(),
                        lines@.len() == i,
                        forall|j: int| 0 <= j < i ==> (#[trigger] lines@[j])@ == self.actions@[j]@,
                    decreases self.actions@.len() - i,
                {
                    lines.push(self.actions[i].clone());
                    i += 1;
                }
                let mut inc_line = String::from_str("<include ");
                inc_line.append(p.as_str());
                inc_line.append(">");
                lines.push(inc_line);
                proof {
                    assert(lines@.map_values(|s: String| s@) =~= transform_lines(*self));
                }
                crate::strutil::join_strings(&lines, "\n")
            },
            None => {
                proof {
                    assert(self.actions@.map_values(|s: String| s@) =~= transform_lines(*self));
                }
                crate::strutil::join_strings(&self.actions, "\n")
            },
        }
    }
}

/// The parsed gate document.
#[derive(Debug, Clone, PartialEq)]
pub struct Gate {
    pub path: String,
    pub name: String,
    pub version: String,
    pub branch: String,
    pub distribution: Option<Distribution>,
    pub packages: Vec<Package>,
    pub default_transforms: Vec<Transform>,
    pub publisher: String,
}

impl Default for Gate {
    /// A gate with nothing set, used when none is given: empty, with stock
    /// version, branch and publisher.
    fn default() -> (r: Self)
        ensures
            r.path@ == Seq::<char>::empty(),
            r.name@ == Seq::<char>::empty(),
            r.version@ == "0.5.11"@,
            r.branch@ == "2023.0.0"@,
            r.distribution is None,
            r.packages@.len() == 0,
            r.default_transforms@.len() == 0,
            r.publisher@ == "userland"@,
    {
        Gate {
            path: String::new(),
            name: String::new(),
            version: String::from_str("0.5.11"),
            branch: String::from_str("2023.0.0"),
            distribution: None,
            packages: Vec::new(),
            default_transforms: Vec::new(),
            publisher: String::from_str("userland"),
        }
    }
}

/// The first package of the list carrying the given name.
pub open spec fn find_package(pkgs: Seq<Package>, name: Seq<char>) -> Option<Package>
    decreases pkgs.len(),
{
    if pkgs.len() == 0 {
        None
    } else if pkgs[0].name@ == name {
        Some(pkgs[0])
    } else {
        find_package(pkgs.skip(1), name)
    }
}

impl Gate {
    /// This gate's stub for the named package, when it has one.
    pub fn get_package(&self, name: &str) -> (r: Option<Package>)
        ensures
            match r {
                Some(p) => find_package(self.packages@, name@) matches Some(q) && pkg_eqv(p, q),
                None => find_package(self.packages@, name@) is None,
            },
    {
        let mut i: usize = 0;
        proof {
            assert(self.packages@.skip(0) =~= self.packages@);
        }
        while i < self.packages.len()
            invariant
                i <= self.packages@.len(),
                find_package(self.packages@, name@) == find_package(
                    self.packages@.skip(i as int),
                    name@,
                ),
                forall|j: int| 0 <= j < i ==> (#[trigger] self.packages@[j]).name@ != name@,
            decreases self.packages@.len() - i,
        {
            proof {
                assert(self.packages@.skip(i as int)[0] == self.packages@[i as int]);
                assert(self.packages@.skip(i as int).skip(1) =~= self.packages@.skip(i + 1));
            }
            if str_eq(self.packages[i].name.as_str(), name) {
                return Some(copy_package(&self.packages[i]));
            }
            i += 1;
        }
        proof {
            assert(self.packages@.skip(self.packages@.len() as int) =~= Seq::<Package>::empty());
        }
        None
    }
}

} // verus!
