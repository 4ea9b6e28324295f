//! The release-tarball path: the output name a package's tarball
//! carries, and the archiving call over the prototype tree's
//! top-level entries.

use vstd::prelude::*;
use vstd::string::StringExecFns;

use crate::paths::spec_underscored;

verus! {

/// The tarball's file name: the package name with separators folded
/// to underscores, the version when one is set, and the archive
/// suffix.
pub open spec fn spec_output_name(name: Seq<char>, version: Option<Seq<char>>) -> Seq<char> {
    match version {
        Some(v) => spec_underscored(name) + seq!['-'] + v + ".tar.gz"@,
        None => spec_underscored(name) + ".tar.gz"@,
    }
}

/// Derives the release tarball's file name.
pub fn derive_output_name(name: &str, version: &Option<String>) -> (r: String)
    ensures
        r@ == spec_output_name(name@, version.deep_view()),
{
    let mut s = crate::strutil::replace_char(name, '/', '_');
    match version {
        Some(v) => {
            s.append("-");
            s.append(v.as_str());
            s.append(".tar.gz");
            proof {
                reveal_strlit("-");
                assert(s@ =~= spec_output_name(name@, version.deep_view()));
            }
        },
        None => {
            s.append(".tar.gz");
        },
    }
    s
}

/// The archiving call: the output path, then every top-level entry
/// of the prototype tree, in the order they were listed.
pub fn tarball_args(output_path: &str, entries: &Vec<String>) -> (r: Vec<String>)
    ensures
        r@.len() == 2 + entries@.len(),
        r@[0]@ == "-czf"@,
        r@[1]@ == output_path@,
        forall|i: int| 0 <= i < entries@.len() ==> (#[trigger] r@[2 + i])@ == entries@[i]@,
{
    let mut args: Vec<String> = Vec::new();
    args.push(String::from_str("-czf"));
    args.push(String::from_str(output_path));
    let mut i: usize = 0;
    while i < entries.len()
        invariant
            i <= entries@.len(),
            args@.len() == 2 + i,
            args@[0]@ == "-czf"@,
            args@[1]@ == output_path@,
            forall|j: int| 0 <= j < i ==> (#[trigger] args@[2 + j])@ == entries@[j]@,
        decreases entries@.len() - i,
    {
        args.push(entries[i].clone());
        i += 1;
    }
    args
}

} // verus!
