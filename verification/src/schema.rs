//! The bundle schema: what a well-formed package document looks like,
//! how a document tree becomes a [`Package`], and how a package is
//! written back.  Reading is strict — an unknown node or property is
//! refused — and a document read back from an emitted tree holds the
//! same package.

use vstd::prelude::*;
use vstd::seq_lib::*;
use vstd::string::StringExecFns;

use crate::bundle::{
    ArchiveSource, BuildFlagNode, BuildOptionNode, BuildSection, BundleError,
    ConfigureBuildSection, Dependency, DependencyKind, DirectorySource, FileSource, GitSource,
    InstallDirectiveNode, OverlaySource, Package, PatchSource, ScriptBuildSection, ScriptNode,
    SourceNode, SourceSection,
};
use crate::doc::{
    bare_leaf_ok, child_scalar_of, item_name, last_child, last_named, leaf_arg_str, prop_last,
    prop_last_bool, prop_last_int, prop_last_str, scalar_leaf_ok, scalar_of, val_str, value_bool,
    value_int, value_str_ref, Branch, GateItem, Leaf, PkgItem, Prop, Value,
};
use crate::strutil::str_eq;

verus! {

broadcast use vstd::string::group_string_axioms;

// ---------------------------------------------------------------
// Emitting properties and reading them back
// ---------------------------------------------------------------
/// Appends a string property when the value is set; every other
/// property lookup is left unchanged.
fn push_str_prop(props: &mut Vec<Prop>, key: &str, value: &Option<String>)
    requires
        prop_last(old(props)@, key@) is None,
    ensures
        prop_last_str(final(props)@, key@) == value.deep_view(),
        prop_last(final(props)@, key@) is Some <==> value is Some,
        forall|k: Seq<char>|
            k != key@ ==> #[trigger] prop_last(final(props)@, k) == prop_last(old(props)@, k),
        final(props)@.len() == old(props)@.len() + (if value is Some {
            1int
        } else {
            0int
        }),
        forall|i: int| 0 <= i < old(props)@.len() ==> #[trigger] final(props)@[i] == old(
            props,
        )@[i],
        forall|i: int|
            old(props)@.len() <= i < final(props)@.len() ==> (#[trigger] final(props)@[i]).key@
                == key@ && final(props)@[i].val is Str,
{
    match value {
        Some(s) => {
            let p = Prop { key: String::from_str(key), val: Value::Str(s.clone()) };
            props.push(p);
            proof {
                assert(final(props)@.drop_last() =~= old(props)@);
            }
        },
        None => {},
    }
}

/// Appends a boolean property when the value is set; every other
/// property lookup is left unchanged.
fn push_bool_prop(props: &mut Vec<Prop>, key: &str, value: &Option<bool>)
    requires
        prop_last(old(props)@, key@) is None,
    ensures
        prop_last_bool(final(props)@, key@) == *value,
        prop_last(final(props)@, key@) is Some <==> value is Some,
        forall|k: Seq<char>|
            k != key@ ==> #[trigger] prop_last(final(props)@, k) == prop_last(old(props)@, k),
        final(props)@.len() == old(props)@.len() + (if value is Some {
            1int
        } else {
            0int
        }),
        forall|i: int| 0 <= i < old(props)@.len() ==> #[trigger] final(props)@[i] == old(
            props,
        )@[i],
        forall|i: int|
            old(props)@.len() <= i < final(props)@.len() ==> (#[trigger] final(props)@[i]).key@
                == key@ && final(props)@[i].val is Bool,
{
    match value {
        Some(b) => {
            let p = Prop { key: String::from_str(key), val: Value::Bool(*b) };
            props.push(p);
            proof {
                assert(final(props)@.drop_last() =~= old(props)@);
            }
        },
        None => {},
    }
}

/// Appends an integer property when the value is set; every other
/// property lookup is left unchanged.
fn push_int_prop(props: &mut Vec<Prop>, key: &str, value: &Option<i64>)
    requires
        prop_last(old(props)@, key@) is None,
    ensures
        prop_last_int(final(props)@, key@) == *value,
        prop_last(final(props)@, key@) is Some <==> value is Some,
        forall|k: Seq<char>|
            k != key@ ==> #[trigger] prop_last(final(props)@, k) == prop_last(old(props)@, k),
        final(props)@.len() == old(props)@.len() + (if value is Some {
            1int
        } else {
            0int
        }),
        forall|i: int| 0 <= i < old(props)@.len() ==> #[trigger] final(props)@[i] == old(
            props,
        )@[i],
        forall|i: int|
            old(props)@.len() <= i < final(props)@.len() ==> (#[trigger] final(props)@[i]).key@
                == key@ && final(props)@[i].val is Int,
{
    match value {
        Some(n) => {
            let p = Prop { key: String::from_str(key), val: Value::Int(*n) };
            props.push(p);
            proof {
                assert(final(props)@.drop_last() =~= old(props)@);
            }
        },
        None => {},
    }
}

// ---------------------------------------------------------------
// Source node leaves
// ---------------------------------------------------------------
pub open spec fn archive_prop_key_ok(k: Seq<char>) -> bool {
    ||| k == "sha512"@
    ||| k == "sha256"@
    ||| k == "signature-url-extension"@
    ||| k == "signature-url"@
}

pub open spec fn archive_leaf_ok(l: Leaf) -> bool {
    &&& l.args@.len() == 1
    &&& l.args@[0] is Str
    &&& forall|i: int|
        0 <= i < l.props@.len() ==> archive_prop_key_ok((#[trigger] l.props@[i]).key@)
            && l.props@[i].val is Str
}

pub open spec fn archive_from_leaf(l: Leaf, a: ArchiveSource) -> bool {
    &&& a.src@ == val_str(l.args@[0])
    &&& a.sha512.deep_view() == prop_last_str(l.props@, "sha512"@)
    &&& a.sha256.deep_view() == prop_last_str(l.props@, "sha256"@)
    &&& a.signature_url_extension.deep_view() == prop_last_str(
        l.props@,
        "signature-url-extension"@,
    )
    &&& a.signature_url.deep_view() == prop_last_str(l.props@, "signature-url"@)
}

impl ArchiveSource {
    /// This archive source as a document leaf.
    pub fn to_node(&self) -> (r: Leaf)
        ensures
            r.name@ == "archive"@,
            archive_leaf_ok(r),
            archive_from_leaf(r, *self),
    {
        let mut args: Vec<Value> = Vec::new();
        args.push(Value::Str(self.src.clone()));
        let mut props: Vec<Prop> = Vec::new();
        proof {
            reveal_strlit("sha512");
            reveal_strlit("sha256");
            reveal_strlit("signature-url-extension");
            reveal_strlit("signature-url");
            assert("sha512"@[3] == '5' && "sha256"@[3] == '2');
            assert("sha512"@.len() == 6 && "sha256"@.len() == 6 && "signature-url"@.len() == 13
                && "signature-url-extension"@.len() == 23);
            assert("sha512"@ != "sha256"@);
            assert("sha512"@ != "signature-url-extension"@);
            assert("sha512"@ != "signature-url"@);
            assert("sha256"@ != "signature-url-extension"@);
            assert("sha256"@ != "signature-url"@);
            assert("signature-url-extension"@ != "signature-url"@);
        }
        push_str_prop(&mut props, "sha512", &self.sha512);
        push_str_prop(&mut props, "sha256", &self.sha256);
        push_str_prop(&mut props, "signature-url-extension", &self.signature_url_extension);
        push_str_prop(&mut props, "signature-url", &self.signature_url);
        Leaf { name: String::from_str("archive"), args, props }
    }
}

/// Reads an archive source back from a leaf.
pub fn decode_archive(l: &Leaf) -> (r: Result<ArchiveSource, BundleError>)
    ensures
        r is Ok <==> archive_leaf_ok(*l),
        r matches Ok(a) ==> archive_from_leaf(*l, a),
{
    if l.args.len() != 1 {
        return Err(BundleError::WrongArgumentCount(String::from_str("archive")));
    }
    let src = match value_str_ref(&l.args[0]) {
        Some(s) => s.clone(),
        None => {
            return Err(BundleError::WrongValueType(String::from_str("archive")));
        },
    };
    let mut sha512: Option<String> = None;
    let mut sha256: Option<String> = None;
    let mut sig_ext: Option<String> = None;
    let mut sig_url: Option<String> = None;
    let mut i: usize = 0;
    while i < l.props.len()
        invariant
            i <= l.props@.len(),
            forall|j: int|
                0 <= j < i ==> archive_prop_key_ok((#[trigger] l.props@[j]).key@)
                    && l.props@[j].val is Str,
            sha512.deep_view() == prop_last_str(l.props@.take(i as int), "sha512"@),
            sha256.deep_view() == prop_last_str(l.props@.take(i as int), "sha256"@),
            sig_ext.deep_view() == prop_last_str(l.props@.take(i as int), "signature-url-extension"@),
            sig_url.deep_view() == prop_last_str(l.props@.take(i as int), "signature-url"@),
        decreases l.props@.len() - i,
    {
        let p = &l.props[i];
        proof {
            reveal_strlit("sha512");
            reveal_strlit("sha256");
            reveal_strlit("signature-url-extension");
            reveal_strlit("signature-url");
            assert("sha512"@[3] == '5' && "sha256"@[3] == '2');
            assert("sha512"@.len() == 6 && "sha256"@.len() == 6 && "signature-url"@.len() == 13
                && "signature-url-extension"@.len() == 23);
            assert("sha512"@ != "sha256"@);
            assert("sha512"@ != "signature-url-extension"@);
            assert("sha512"@ != "signature-url"@);
            assert("sha256"@ != "signature-url-extension"@);
            assert("sha256"@ != "signature-url"@);
            assert("signature-url-extension"@ != "signature-url"@);
            assert(l.props@.take(i + 1).drop_last() =~= l.props@.take(i as int));
        }
        let v = match value_str_ref(&p.val) {
            Some(s) => s.clone(),
            None => {
                return Err(BundleError::WrongValueType(p.key.clone()));
            },
        };
        if str_eq(p.key.as_str(), "sha512") {
            sha512 = Some(v);
        } else if str_eq(p.key.as_str(), "sha256") {
            sha256 = Some(v);
        } else if str_eq(p.key.as_str(), "signature-url-extension") {
            sig_ext = Some(v);
        } else if str_eq(p.key.as_str(), "signature-url") {
            sig_url = Some(v);
        } else {
            return Err(BundleError::UnknownProperty(p.key.clone()));
        }
        i += 1;
    }
    proof {
        assert(l.props@.take(l.props@.len() as int) =~= l.props@);
    }
    Ok(
        ArchiveSource {
            src,
            sha512,
            sha256,
            signature_url_extension: sig_ext,
            signature_url: sig_url,
        },
    )
}

pub open spec fn git_prop_key_ok(k: Seq<char>) -> bool {
    ||| k == "branch"@
    ||| k == "tag"@
    ||| k == "archive"@
    ||| k == "must-stay-as-repo"@
    ||| k == "directory"@
}

pub open spec fn git_leaf_ok(l: Leaf) -> bool {
    &&& l.args@.len() == 1
    &&& l.args@[0] is Str
    &&& forall|i: int|
        0 <= i < l.props@.len() ==> {
            let k = (#[trigger] l.props@[i]).key@;
            &&& git_prop_key_ok(k)
            &&& if k == "archive"@ || k == "must-stay-as-repo"@ {
                l.props@[i].val is Bool
            } else {
                l.props@[i].val is Str
            }
        }
}

pub open spec fn git_from_leaf(l: Leaf, g: GitSource) -> bool {
    &&& g.repository@ == val_str(l.args@[0])
    &&& g.branch.deep_view() == prop_last_str(l.props@, "branch"@)
    &&& g.tag.deep_view() == prop_last_str(l.props@, "tag"@)
    &&& g.archive == prop_last_bool(l.props@, "archive"@)
    &&& g.must_stay_as_repo == prop_last_bool(l.props@, "must-stay-as-repo"@)
    &&& g.directory.deep_view() == prop_last_str(l.props@, "directory"@)
}

proof fn lemma_git_keys_distinct()
    ensures
        "branch"@ != "tag"@,
        "branch"@ != "archive"@,
        "branch"@ != "must-stay-as-repo"@,
        "branch"@ != "directory"@,
        "tag"@ != "archive"@,
        "tag"@ != "must-stay-as-repo"@,
        "tag"@ != "directory"@,
        "archive"@ != "must-stay-as-repo"@,
        "archive"@ != "directory"@,
        "must-stay-as-repo"@ != "directory"@,
{
    reveal_strlit("branch");
    reveal_strlit("tag");
    reveal_strlit("archive");
    reveal_strlit("must-stay-as-repo");
    reveal_strlit("directory");
    assert("branch"@.len() == 6 && "tag"@.len() == 3 && "archive"@.len() == 7
        && "must-stay-as-repo"@.len() == 17 && "directory"@.len() == 9);
}

impl GitSource {
    /// This Git source as a document leaf.
    pub fn to_node(&self) -> (r: Leaf)
        ensures
            r.name@ == "git"@,
            git_leaf_ok(r),
            git_from_leaf(r, *self),
    {
        let mut args: Vec<Value> = Vec::new();
        args.push(Value::Str(self.repository.clone()));
        let mut props: Vec<Prop> = Vec::new();
        proof {
            lemma_git_keys_distinct();
        }
        push_str_prop(&mut props, "branch", &self.branch);
        push_str_prop(&mut props, "tag", &self.tag);
        push_bool_prop(&mut props, "archive", &self.archive);
        push_bool_prop(&mut props, "must-stay-as-repo", &self.must_stay_as_repo);
        push_str_prop(&mut props, "directory", &self.directory);
        Leaf { name: String::from_str("git"), args, props }
    }
}

/// Reads a Git source back from a leaf.
pub fn decode_git(l: &Leaf) -> (r: Result<GitSource, BundleError>)
    ensures
        r is Ok <==> git_leaf_ok(*l),
        r matches Ok(g) ==> git_from_leaf(*l, g),
{
    if l.args.len() != 1 {
        return Err(BundleError::WrongArgumentCount(String::from_str("git")));
    }
    let repository = match value_str_ref(&l.args[0]) {
        Some(s) => s.clone(),
        None => {
            return Err(BundleError::WrongValueType(String::from_str("git")));
        },
    };
    let mut branch: Option<String> = None;
    let mut tag: Option<String> = None;
    let mut archive: Option<bool> = None;
    let mut stay: Option<bool> = None;
    let mut directory: Option<String> = None;
    let mut i: usize = 0;
    while i < l.props.len()
        invariant
            i <= l.props@.len(),
            forall|j: int|
                0 <= j < i ==> {
                    let k = (#[trigger] l.props@[j]).key@;
                    &&& git_prop_key_ok(k)
                    &&& if k == "archive"@ || k == "must-stay-as-repo"@ {
                        l.props@[j].val is Bool
                    } else {
                        l.props@[j].val is Str
                    }
                },
            branch.deep_view() == prop_last_str(l.props@.take(i as int), "branch"@),
            tag.deep_view() == prop_last_str(l.props@.take(i as int), "tag"@),
            archive == prop_last_bool(l.props@.take(i as int), "archive"@),
            stay == prop_last_bool(l.props@.take(i as int), "must-stay-as-repo"@),
            directory.deep_view() == prop_last_str(l.props@.take(i as int), "directory"@),
        decreases l.props@.len() - i,
    {
        let p = &l.props[i];
        proof {
            lemma_git_keys_distinct();
            assert(l.props@.take(i + 1).drop_last() =~= l.props@.take(i as int));
        }
        if str_eq(p.key.as_str(), "branch") {
            match value_str_ref(&p.val) {
                Some(s) => {
                    branch = Some(s.clone());
                },
                None => {
                    return Err(BundleError::WrongValueType(p.key.clone()));
                },
            }
        } else if str_eq(p.key.as_str(), "tag") {
            match value_str_ref(&p.val) {
                Some(s) => {
                    tag = Some(s.clone());
                },
                None => {
                    return Err(BundleError::WrongValueType(p.key.clone()));
                },
            }
        } else if str_eq(p.key.as_str(), "archive") {
            match value_bool(&p.val) {
                Some(b) => {
                    archive = Some(b);
                },
                None => {
                    return Err(BundleError::WrongValueType(p.key.clone()));
                },
            }
        } else if str_eq(p.key.as_str(), "must-stay-as-repo") {
            match value_bool(&p.val) {
                Some(b) => {
                    stay = Some(b);
                },
                None => {
                    return Err(BundleError::WrongValueType(p.key.clone()));
                },
            }
        } else if str_eq(p.key.as_str(), "directory") {
            match value_str_ref(&p.val) {
                Some(s) => {
                    directory = Some(s.clone());
                },
                None => {
                    return Err(BundleError::WrongValueType(p.key.clone()));
                },
            }
        } else {
            return Err(BundleError::UnknownProperty(p.key.clone()));
        }
        i += 1;
    }
    proof {
        assert(l.props@.take(l.props@.len() as int) =~= l.props@);
    }
    Ok(
        GitSource {
            repository,
            branch,
            tag,
            archive,
            must_stay_as_repo: stay,
            directory,
        },
    )
}

pub open spec fn path_leaf_ok(l: Leaf) -> bool {
    &&& (l.args@.len() == 1 || l.args@.len() == 2)
    &&& forall|i: int| 0 <= i < l.args@.len() ==> (#[trigger] l.args@[i]) is Str
    &&& l.props@.len() == 0
}

pub open spec fn path_leaf_target(l: Leaf) -> Option<Seq<char>> {
    if l.args@.len() == 2 {
        Some(val_str(l.args@[1]))
    } else {
        None
    }
}

pub open spec fn file_from_leaf(l: Leaf, f: FileSource) -> bool {
    &&& f.bundle_path@ == val_str(l.args@[0])
    &&& f.target_path.deep_view() == path_leaf_target(l)
}

pub open spec fn dir_from_leaf(l: Leaf, d: DirectorySource) -> bool {
    &&& d.bundle_path@ == val_str(l.args@[0])
    &&& d.target_path.deep_view() == path_leaf_target(l)
}

/// The shared body of the file and directory leaves: a bundle path
/// and an optional target path.
fn path_leaf_args(bundle_path: &String, target_path: &Option<String>) -> (r: Vec<Value>)
    ensures
        (r@.len() == 1 || r@.len() == 2),
        forall|i: int| 0 <= i < r@.len() ==> (#[trigger] r@[i]) is Str,
        val_str(r@[0]) == bundle_path@,
        (if r@.len() == 2 {
            Some(val_str(r@[1]))
        } else {
            None
        }) == target_path.deep_view(),
{
    let mut args: Vec<Value> = Vec::new();
    args.push(Value::Str(bundle_path.clone()));
    match target_path {
        Some(t) => {
            args.push(Value::Str(t.clone()));
        },
        None => {},
    }
    args
}

/// Reads the shared file and directory leaf shape back.
fn decode_path_leaf(l: &Leaf, what: &str) -> (r: Result<(String, Option<String>), BundleError>)
    ensures
        r is Ok <==> path_leaf_ok(*l),
        r matches Ok(p) ==> p.0@ == val_str(l.args@[0]) && p.1.deep_view() == path_leaf_target(*l),
{
    if l.props.len() != 0 {
        return Err(BundleError::UnknownProperty(String::from_str(what)));
    }
    if l.args.len() != 1 && l.args.len() != 2 {
        return Err(BundleError::WrongArgumentCount(String::from_str(what)));
    }
    let bundle_path = match value_str_ref(&l.args[0]) {
        Some(s) => s.clone(),
        None => {
            return Err(BundleError::WrongValueType(String::from_str(what)));
        },
    };
    let target_path: Option<String> = if l.args.len() == 2 {
        match value_str_ref(&l.args[1]) {
            Some(s) => Some(s.clone()),
            None => {
                return Err(BundleError::WrongValueType(String::from_str(what)));
            },
        }
    } else {
        None
    };
    Ok((bundle_path, target_path))
}

impl FileSource {
    /// This file source as a document leaf.
    pub fn to_node(&self) -> (r: Leaf)
        ensures
            r.name@ == "file"@,
            path_leaf_ok(r),
            file_from_leaf(r, *self),
    {
        let args = path_leaf_args(&self.bundle_path, &self.target_path);
        Leaf { name: String::from_str("file"), args, props: Vec::new() }
    }
}

impl DirectorySource {
    /// This directory source as a document leaf.
    pub fn to_node(&self) -> (r: Leaf)
        ensures
            r.name@ == "directory"@,
            path_leaf_ok(r),
            dir_from_leaf(r, *self),
    {
        let args = path_leaf_args(&self.bundle_path, &self.target_path);
        Leaf { name: String::from_str("directory"), args, props: Vec::new() }
    }
}

pub open spec fn patch_leaf_ok(l: Leaf) -> bool {
    &&& l.args@.len() == 1
    &&& l.args@[0] is Str
    &&& forall|i: int|
        0 <= i < l.props@.len() ==> (#[trigger] l.props@[i]).key@ == "drop-directories"@
            && l.props@[i].val is Int
}

pub open spec fn patch_from_leaf(l: Leaf, p: PatchSource) -> bool {
    &&& p.bundle_path@ == val_str(l.args@[0])
    &&& p.drop_directories == prop_last_int(l.props@, "drop-directories"@)
}

impl PatchSource {
    /// This patch source as a document leaf.
    pub fn to_node(&self) -> (r: Leaf)
        ensures
            r.name@ == "patch"@,
            patch_leaf_ok(r),
            patch_from_leaf(r, *self),
    {
        let mut args: Vec<Value> = Vec::new();
        args.push(Value::Str(self.bundle_path.clone()));
        let mut props: Vec<Prop> = Vec::new();
        push_int_prop(&mut props, "drop-directories", &self.drop_directories);
        Leaf { name: String::from_str("patch"), args, props }
    }
}

/// Reads a patch source back from a leaf.
pub fn decode_patch(l: &Leaf) -> (r: Result<PatchSource, BundleError>)
    ensures
        r is Ok <==> patch_leaf_ok(*l),
        r matches Ok(p) ==> patch_from_leaf(*l, p),
{
    if l.args.len() != 1 {
        return Err(BundleError::WrongArgumentCount(String::from_str("patch")));
    }
    let bundle_path = match value_str_ref(&l.args[0]) {
        Some(s) => s.clone(),
        None => {
            return Err(BundleError::WrongValueType(String::from_str("patch")));
        },
    };
    let mut drop_directories: Option<i64> = None;
    let mut i: usize = 0;
    while i < l.props.len()
        invariant
            i <= l.props@.len(),
            forall|j: int|
                0 <= j < i ==> (#[trigger] l.props@[j]).key@ == "drop-directories"@
                    && l.props@[j].val is Int,
            drop_directories == prop_last_int(l.props@.take(i as int), "drop-directories"@),
        decreases l.props@.len() - i,
    {
        let p = &l.props[i];
        proof {
            assert(l.props@.take(i + 1).drop_last() =~= l.props@.take(i as int));
        }
        if str_eq(p.key.as_str(), "drop-directories") {
            match value_int(&p.val) {
                Some(n) => {
                    drop_directories = Some(n);
                },
                None => {
                    return Err(BundleError::WrongValueType(p.key.clone()));
                },
            }
        } else {
            return Err(BundleError::UnknownProperty(p.key.clone()));
        }
        i += 1;
    }
    proof {
        assert(l.props@.take(l.props@.len() as int) =~= l.props@);
    }
    Ok(PatchSource { bundle_path, drop_directories })
}

pub open spec fn overlay_leaf_ok(l: Leaf) -> bool {
    &&& l.args@.len() == 1
    &&& l.args@[0] is Str
    &&& l.props@.len() == 0
}

pub open spec fn overlay_from_leaf(l: Leaf, o: OverlaySource) -> bool {
    o.bundle_path@ == val_str(l.args@[0])
}

impl OverlaySource {
    /// This overlay source as a document leaf.
    pub fn to_node(&self) -> (r: Leaf)
        ensures
            r.name@ == "overlay"@,
            overlay_leaf_ok(r),
            overlay_from_leaf(r, *self),
    {
        let mut args: Vec<Value> = Vec::new();
        args.push(Value::Str(self.bundle_path.clone()));
        Leaf { name: String::from_str("overlay"), args, props: Vec::new() }
    }
}

/// Reads an overlay source back from a leaf.
pub fn decode_overlay(l: &Leaf) -> (r: Result<OverlaySource, BundleError>)
    ensures
        r is Ok <==> overlay_leaf_ok(*l),
        r matches Ok(o) ==> overlay_from_leaf(*l, o),
{
    if l.props.len() != 0 {
        return Err(BundleError::UnknownProperty(String::from_str("overlay")));
    }
    if l.args.len() != 1 {
        return Err(BundleError::WrongArgumentCount(String::from_str("overlay")));
    }
    match value_str_ref(&l.args[0]) {
        Some(s) => Ok(OverlaySource { bundle_path: s.clone() }),
        None => Err(BundleError::WrongValueType(String::from_str("overlay"))),
    }
}

// ---------------------------------------------------------------
// Source node dispatch and source sections
// ---------------------------------------------------------------
pub open spec fn source_leaf_ok(l: Leaf) -> bool {
    if l.name@ == "archive"@ {
        archive_leaf_ok(l)
    } else if l.name@ == "git"@ {
        git_leaf_ok(l)
    } else if l.name@ == "file"@ {
        path_leaf_ok(l)
    } else if l.name@ == "directory"@ {
        path_leaf_ok(l)
    } else if l.name@ == "patch"@ {
        patch_leaf_ok(l)
    } else if l.name@ == "overlay"@ {
        overlay_leaf_ok(l)
    } else {
        false
    }
}

pub open spec fn source_node_from_leaf(l: Leaf, n: SourceNode) -> bool {
    if l.name@ == "archive"@ {
        n is Archive && archive_from_leaf(l, n->Archive_0)
    } else if l.name@ == "git"@ {
        n is Git && git_from_leaf(l, n->Git_0)
    } else if l.name@ == "file"@ {
        n is File && file_from_leaf(l, n->File_0)
    } else if l.name@ == "directory"@ {
        n is Directory && dir_from_leaf(l, n->Directory_0)
    } else if l.name@ == "patch"@ {
        n is Patch && patch_from_leaf(l, n->Patch_0)
    } else if l.name@ == "overlay"@ {
        n is Overlay && overlay_from_leaf(l, n->Overlay_0)
    } else {
        false
    }
}

/// This source node as a document leaf.
pub fn source_node_to_leaf(n: &SourceNode) -> (r: Leaf)
    ensures
        source_leaf_ok(r),
        source_node_from_leaf(r, *n),
{
    proof {
        lemma_source_names_distinct();
    }
    match n {
        SourceNode::Archive(a) => a.to_node(),
        SourceNode::Git(g) => g.to_node(),
        SourceNode::File(f) => f.to_node(),
        SourceNode::Directory(d) => d.to_node(),
        SourceNode::Patch(p) => p.to_node(),
        SourceNode::Overlay(o) => o.to_node(),
    }
}

proof fn lemma_source_names_distinct()
    ensures
        "archive"@ != "git"@,
        "archive"@ != "file"@,
        "archive"@ != "directory"@,
        "archive"@ != "patch"@,
        "archive"@ != "overlay"@,
        "git"@ != "file"@,
        "git"@ != "directory"@,
        "git"@ != "patch"@,
        "git"@ != "overlay"@,
        "file"@ != "directory"@,
        "file"@ != "patch"@,
        "file"@ != "overlay"@,
        "directory"@ != "patch"@,
        "directory"@ != "overlay"@,
        "patch"@ != "overlay"@,
{
    reveal_strlit("archive");
    reveal_strlit("git");
    reveal_strlit("file");
    reveal_strlit("directory");
    reveal_strlit("patch");
    reveal_strlit("overlay");
    assert("archive"@.len() == 7 && "git"@.len() == 3 && "file"@.len() == 4 && "directory"@.len()
        == 9 && "patch"@.len() == 5 && "overlay"@.len() == 7);
    assert("archive"@[0] == 'a' && "overlay"@[0] == 'o');
    assert("archive"@ != "overlay"@);
}

/// Reads one source node back from a leaf.
pub fn decode_source_node(l: &Leaf) -> (r: Result<SourceNode, BundleError>)
    ensures
        r is Ok <==> source_leaf_ok(*l),
        r matches Ok(n) ==> source_node_from_leaf(*l, n),
{
    if str_eq(l.name.as_str(), "archive") {
        match decode_archive(l) {
            Ok(a) => Ok(SourceNode::Archive(a)),
            Err(e) => Err(e),
        }
    } else if str_eq(l.name.as_str(), "git") {
        match decode_git(l) {
            Ok(g) => Ok(SourceNode::Git(g)),
            Err(e) => Err(e),
        }
    } else if str_eq(l.name.as_str(), "file") {
        match decode_path_leaf(l, "file") {
            Ok(p) => Ok(SourceNode::File(FileSource { bundle_path: p.0, target_path: p.1 })),
            Err(e) => Err(e),
        }
    } else if str_eq(l.name.as_str(), "directory") {
        match decode_path_leaf(l, "directory") {
            Ok(p) => Ok(
                SourceNode::Directory(DirectorySource { bundle_path: p.0, target_path: p.1 }),
            ),
            Err(e) => Err(e),
        }
    } else if str_eq(l.name.as_str(), "patch") {
        match decode_patch(l) {
            Ok(p) => Ok(SourceNode::Patch(p)),
            Err(e) => Err(e),
        }
    } else if str_eq(l.name.as_str(), "overlay") {
        match decode_overlay(l) {
            Ok(o) => Ok(SourceNode::Overlay(o)),
            Err(e) => Err(e),
        }
    } else {
        Err(BundleError::UnknownNode(l.name.clone()))
    }
}

pub open spec fn section_ok(b: Branch) -> bool {
    &&& (b.args@.len() == 0 || (b.args@.len() == 1 && b.args@[0] is Str))
    &&& forall|i: int| 0 <= i < b.children@.len() ==> source_leaf_ok(#[trigger] b.children@[i])
}

pub open spec fn section_from_branch(b: Branch, s: SourceSection) -> bool {
    &&& s.name.deep_view() == (if b.args@.len() == 1 {
        Some(val_str(b.args@[0]))
    } else {
        None::<Seq<char>>
    })
    &&& s.sources@.len() == b.children@.len()
    &&& forall|i: int|
        0 <= i < b.children@.len() ==> source_node_from_leaf(
            b.children@[i],
            #[trigger] s.sources@[i],
        )
}

impl SourceSection {
    /// This source section as a document branch.
    pub fn to_node(&self) -> (r: Branch)
        ensures
            r.name@ == "source"@,
            section_ok(r),
            section_from_branch(r, *self),
    {
        let mut args: Vec<Value> = Vec::new();
        match &self.name {
            Some(n) => {
                args.push(Value::Str(n.clone()));
            },
            None => {},
        }
        let mut children: Vec<Leaf> = Vec::new();
        let mut i: usize = 0;
        while i < self.sources.len()
            invariant
                i <= self.sources@.len(),
                children@.len() == i,
                forall|j: int| 0 <= j < i ==> source_leaf_ok(#[trigger] children@[j]),
                forall|j: int|
                    0 <= j < i ==> source_node_from_leaf(children@[j], #[trigger] self.sources@[j]),
            decreases self.sources@.len() - i,
        {
            children.push(source_node_to_leaf(&self.sources[i]));
            i += 1;
        }
        Branch { name: String::from_str("source"), args, children }
    }
}

/// Reads a source section back from a branch.
pub fn decode_section(b: &Branch) -> (r: Result<SourceSection, BundleError>)
    ensures
        r is Ok <==> section_ok(*b),
        r matches Ok(s) ==> section_from_branch(*b, s),
{
    let name: Option<String> = if b.args.len() == 0 {
        None
    } else if b.args.len() == 1 {
        match value_str_ref(&b.args[0]) {
            Some(s) => Some(s.clone()),
            None => {
                return Err(BundleError::WrongValueType(String::from_str("source")));
            },
        }
    } else {
        return Err(BundleError::WrongArgumentCount(String::from_str("source")));
    };
    let mut sources: Vec<SourceNode> = Vec::new();
    let mut i: usize = 0;
    while i < b.children.len()
        invariant
            i <= b.children@.len(),
            sources@.len() == i,
            forall|j: int| 0 <= j < i ==> source_leaf_ok(#[trigger] b.children@[j]),
            forall|j: int|
                0 <= j < i ==> source_node_from_leaf(b.children@[j], #[trigger] sources@[j]),
        decreases b.children@.len() - i,
    {
        match decode_source_node(&b.children[i]) {
            Ok(n) => {
                sources.push(n);
            },
            Err(e) => {
                return Err(e);
            },
        }
        i += 1;
    }
    Ok(SourceSection { name, sources })
}

// ---------------------------------------------------------------
// Dependencies
// ---------------------------------------------------------------
/// The dependency kind a `kind` property names, when it names one.
pub open spec fn kind_of(s: Seq<char>) -> Option<DependencyKind> {
    if s == "require"@ {
        Some(DependencyKind::Require)
    } else if s == "incorporate"@ {
        Some(DependencyKind::Incorporate)
    } else if s == "optional"@ {
        Some(DependencyKind::Optional)
    } else {
        None
    }
}

pub open spec fn dep_leaf_ok(l: Leaf) -> bool {
    &&& l.args@.len() == 1
    &&& l.args@[0] is Str
    &&& forall|i: int|
        0 <= i < l.props@.len() ==> {
            let k = (#[trigger] l.props@[i]).key@;
            &&& (k == "dev"@ || k == "kind"@)
            &&& if k == "dev"@ {
                l.props@[i].val is Bool
            } else {
                l.props@[i].val is Str
            }
        }
    &&& match prop_last_str(l.props@, "kind"@) {
        Some(s) => kind_of(s) is Some,
        None => true,
    }
}

pub open spec fn dep_from_leaf(l: Leaf, d: Dependency) -> bool {
    &&& d.name@ == val_str(l.args@[0])
    &&& d.dev == (prop_last_bool(l.props@, "dev"@) matches Some(true))
    &&& d.kind == (match prop_last_str(l.props@, "kind"@) {
        Some(s) => kind_of(s),
        None => None,
    })
}

proof fn lemma_dep_keys_distinct()
    ensures
        "dev"@ != "kind"@,
        "require"@ != "incorporate"@,
        "require"@ != "optional"@,
        "incorporate"@ != "optional"@,
{
    reveal_strlit("dev");
    reveal_strlit("kind");
    reveal_strlit("require");
    reveal_strlit("incorporate");
    reveal_strlit("optional");
    assert("dev"@.len() == 3 && "kind"@.len() == 4 && "require"@.len() == 7
        && "incorporate"@.len() == 11 && "optional"@.len() == 8);
}

impl Dependency {
    /// This dependency as a document leaf.
    pub fn to_node(&self) -> (r: Leaf)
        ensures
            r.name@ == "dependency"@,
            dep_leaf_ok(r),
            dep_from_leaf(r, *self),
    {
        let mut args: Vec<Value> = Vec::new();
        args.push(Value::Str(self.name.clone()));
        let mut props: Vec<Prop> = Vec::new();
        proof {
            lemma_dep_keys_distinct();
        }
        let dev_prop: Option<bool> = if self.dev {
            Some(true)
        } else {
            None
        };
        push_bool_prop(&mut props, "dev", &dev_prop);
        let kind_prop: Option<String> = match self.kind {
            Some(DependencyKind::Require) => Some(String::from_str("require")),
            Some(DependencyKind::Incorporate) => Some(String::from_str("incorporate")),
            Some(DependencyKind::Optional) => Some(String::from_str("optional")),
            None => None,
        };
        push_str_prop(&mut props, "kind", &kind_prop);
        Leaf { name: String::from_str("dependency"), args, props }
    }
}

/// Reads a dependency back from a leaf.
pub fn decode_dependency(l: &Leaf) -> (r: Result<Dependency, BundleError>)
    ensures
        r is Ok <==> dep_leaf_ok(*l),
        r matches Ok(d) ==> dep_from_leaf(*l, d),
{
    if l.args.len() != 1 {
        return Err(BundleError::WrongArgumentCount(String::from_str("dependency")));
    }
    let name = match value_str_ref(&l.args[0]) {
        Some(s) => s.clone(),
        None => {
            return Err(BundleError::WrongValueType(String::from_str("dependency")));
        },
    };
    let mut dev: Option<bool> = None;
    let mut kind_str: Option<String> = None;
    let mut i: usize = 0;
    while i < l.props.len()
        invariant
            i <= l.props@.len(),
            forall|j: int|
                0 <= j < i ==> {
                    let k = (#[trigger] l.props@[j]).key@;
                    &&& (k == "dev"@ || k == "kind"@)
                    &&& if k == "dev"@ {
                        l.props@[j].val is Bool
                    } else {
                        l.props@[j].val is Str
                    }
                },
            dev == prop_last_bool(l.props@.take(i as int), "dev"@),
            kind_str.deep_view() == prop_last_str(l.props@.take(i as int), "kind"@),
        decreases l.props@.len() - i,
    {
        let p = &l.props[i];
        proof {
            lemma_dep_keys_distinct();
            assert(l.props@.take(i + 1).drop_last() =~= l.props@.take(i as int));
        }
        if str_eq(p.key.as_str(), "dev") {
            match value_bool(&p.val) {
                Some(b) => {
                    dev = Some(b);
                },
                None => {
                    return Err(BundleError::WrongValueType(p.key.clone()));
                },
            }
        } else if str_eq(p.key.as_str(), "kind") {
            match value_str_ref(&p.val) {
                Some(s) => {
                    kind_str = Some(s.clone());
                },
                None => {
                    return Err(BundleError::WrongValueType(p.key.clone()));
                },
            }
        } else {
            return Err(BundleError::UnknownProperty(p.key.clone()));
        }
        i += 1;
    }
    proof {
        assert(l.props@.take(l.props@.len() as int) =~= l.props@);
    }
    let kind: Option<DependencyKind> = match kind_str {
        Some(s) => {
            if str_eq(s.as_str(), "require") {
                Some(DependencyKind::Require)
            } else if str_eq(s.as_str(), "incorporate") {
                Some(DependencyKind::Incorporate)
            } else if str_eq(s.as_str(), "optional") {
                Some(DependencyKind::Optional)
            } else {
                return Err(BundleError::UnknownDependencyKind(s.clone()));
            }
        },
        None => None,
    };
    let dev_flag = match dev {
        Some(b) => b,
        None => false,
    };
    Ok(Dependency { name, dev: dev_flag, kind })
}

// ---------------------------------------------------------------
// Build section children
// ---------------------------------------------------------------
pub open spec fn flag_leaf_ok(l: Leaf) -> bool {
    &&& l.args@.len() == 1
    &&& l.args@[0] is Str
    &&& forall|i: int|
        0 <= i < l.props@.len() ==> (#[trigger] l.props@[i]).key@ == "name"@ && l.props@[i].val
            is Str
}

pub open spec fn flag_from_leaf(l: Leaf, f: BuildFlagNode) -> bool {
    &&& f.flag@ == val_str(l.args@[0])
    &&& f.flag_name.deep_view() == prop_last_str(l.props@, "name"@)
}

impl BuildFlagNode {
    /// This flag as a document leaf.
    pub fn to_node(&self) -> (r: Leaf)
        ensures
            r.name@ == "flag"@,
            flag_leaf_ok(r),
            flag_from_leaf(r, *self),
    {
        let mut args: Vec<Value> = Vec::new();
        args.push(Value::Str(self.flag.clone()));
        let mut props: Vec<Prop> = Vec::new();
        push_str_prop(&mut props, "name", &self.flag_name);
        Leaf { name: String::from_str("flag"), args, props }
    }
}

/// Reads a flag back from a leaf.
pub fn decode_flag(l: &Leaf) -> (r: Result<BuildFlagNode, BundleError>)
    ensures
        r is Ok <==> flag_leaf_ok(*l),
        r matches Ok(f) ==> flag_from_leaf(*l, f),
{
    if l.args.len() != 1 {
        return Err(BundleError::WrongArgumentCount(String::from_str("flag")));
    }
    let flag = match value_str_ref(&l.args[0]) {
        Some(s) => s.clone(),
        None => {
            return Err(BundleError::WrongValueType(String::from_str("flag")));
        },
    };
    let mut flag_name: Option<String> = None;
    let mut i: usize = 0;
    while i < l.props.len()
        invariant
            i <= l.props@.len(),
            forall|j: int|
                0 <= j < i ==> (#[trigger] l.props@[j]).key@ == "name"@ && l.props@[j].val is Str,
            flag_name.deep_view() == prop_last_str(l.props@.take(i as int), "name"@),
        decreases l.props@.len() - i,
    {
        let p = &l.props[i];
        proof {
            assert(l.props@.take(i + 1).drop_last() =~= l.props@.take(i as int));
        }
        if str_eq(p.key.as_str(), "name") {
            match value_str_ref(&p.val) {
                Some(s) => {
                    flag_name = Some(s.clone());
                },
                None => {
                    return Err(BundleError::WrongValueType(p.key.clone()));
                },
            }
        } else {
            return Err(BundleError::UnknownProperty(p.key.clone()));
        }
        i += 1;
    }
    proof {
        assert(l.props@.take(l.props@.len() as int) =~= l.props@);
    }
    Ok(BuildFlagNode { flag, flag_name })
}

pub open spec fn script_leaf_ok(l: Leaf) -> bool {
    &&& l.args@.len() == 1
    &&& l.args@[0] is Str
    &&& forall|i: int|
        0 <= i < l.props@.len() ==> (#[trigger] l.props@[i]).key@ == "prototype-dir"@
            && l.props@[i].val is Str
}

pub open spec fn script_from_leaf(l: Leaf, s: ScriptNode) -> bool {
    &&& s.name@ == val_str(l.args@[0])
    &&& s.prototype_dir.deep_view() == prop_last_str(l.props@, "prototype-dir"@)
}

impl ScriptNode {
    /// This script as a document leaf.
    pub fn to_node(&self) -> (r: Leaf)
        ensures
            r.name@ == "script"@,
            script_leaf_ok(r),
            script_from_leaf(r, *self),
    {
        let mut args: Vec<Value> = Vec::new();
        args.push(Value::Str(self.name.clone()));
        let mut props: Vec<Prop> = Vec::new();
        push_str_prop(&mut props, "prototype-dir", &self.prototype_dir);
        Leaf { name: String::from_str("script"), args, props }
    }
}

/// Reads a script back from a leaf.
pub fn decode_script(l: &Leaf) -> (r: Result<ScriptNode, BundleError>)
    ensures
        r is Ok <==> script_leaf_ok(*l),
        r matches Ok(s) ==> script_from_leaf(*l, s),
{
    if l.args.len() != 1 {
        return Err(BundleError::WrongArgumentCount(String::from_str("script")));
    }
    let name = match value_str_ref(&l.args[0]) {
        Some(s) => s.clone(),
        None => {
            return Err(BundleError::WrongValueType(String::from_str("script")));
        },
    };
    let mut prototype_dir: Option<String> = None;
    let mut i: usize = 0;
    while i < l.props.len()
        invariant
            i <= l.props@.len(),
            forall|j: int|
                0 <= j < i ==> (#[trigger] l.props@[j]).key@ == "prototype-dir"@ && l.props@[j].val
                    is Str,
            prototype_dir.deep_view() == prop_last_str(l.props@.take(i as int), "prototype-dir"@),
        decreases l.props@.len() - i,
    {
        let p = &l.props[i];
        proof {
            assert(l.props@.take(i + 1).drop_last() =~= l.props@.take(i as int));
        }
        if str_eq(p.key.as_str(), "prototype-dir") {
            match value_str_ref(&p.val) {
                Some(s) => {
                    prototype_dir = Some(s.clone());
                },
                None => {
                    return Err(BundleError::WrongValueType(p.key.clone()));
                },
            }
        } else {
            return Err(BundleError::UnknownProperty(p.key.clone()));
        }
        i += 1;
    }
    proof {
        assert(l.props@.take(l.props@.len() as int) =~= l.props@);
    }
    Ok(ScriptNode { name, prototype_dir })
}

pub open spec fn install_prop_key_ok(k: Seq<char>) -> bool {
    ||| k == "src"@
    ||| k == "target"@
    ||| k == "name"@
    ||| k == "pattern"@
    ||| k == "match"@
}

pub open spec fn install_leaf_ok(l: Leaf) -> bool {
    &&& l.args@.len() == 0
    &&& forall|i: int|
        0 <= i < l.props@.len() ==> install_prop_key_ok((#[trigger] l.props@[i]).key@)
            && l.props@[i].val is Str
    &&& prop_last_str(l.props@, "src"@) is Some
    &&& prop_last_str(l.props@, "target"@) is Some
    &&& prop_last_str(l.props@, "name"@) is Some
}

pub open spec fn install_from_leaf(l: Leaf, d: InstallDirectiveNode) -> bool {
    &&& Some(d.src@) == prop_last_str(l.props@, "src"@)
    &&& Some(d.target@) == prop_last_str(l.props@, "target"@)
    &&& Some(d.name@) == prop_last_str(l.props@, "name"@)
    &&& d.pattern.deep_view() == prop_last_str(l.props@, "pattern"@)
    &&& d.fmatch.deep_view() == prop_last_str(l.props@, "match"@)
}

proof fn lemma_install_keys_distinct()
    ensures
        "src"@ != "target"@,
        "src"@ != "name"@,
        "src"@ != "pattern"@,
        "src"@ != "match"@,
        "target"@ != "name"@,
        "target"@ != "pattern"@,
        "target"@ != "match"@,
        "name"@ != "pattern"@,
        "name"@ != "match"@,
        "pattern"@ != "match"@,
{
    reveal_strlit("src");
    reveal_strlit("target");
    reveal_strlit("name");
    reveal_strlit("pattern");
    reveal_strlit("match");
    assert("src"@.len() == 3 && "target"@.len() == 6 && "name"@.len() == 4 && "pattern"@.len() == 7
        && "match"@.len() == 5);
}

impl InstallDirectiveNode {
    /// This install directive as a document leaf.
    pub fn to_node(&self) -> (r: Leaf)
        ensures
            r.name@ == "install"@,
            install_leaf_ok(r),
            install_from_leaf(r, *self),
    {
        let mut props: Vec<Prop> = Vec::new();
        proof {
            lemma_install_keys_distinct();
        }
        let src_prop: Option<String> = Some(self.src.clone());
        push_str_prop(&mut props, "src", &src_prop);
        let target_prop: Option<String> = Some(self.target.clone());
        push_str_prop(&mut props, "target", &target_prop);
        let name_prop: Option<String> = Some(self.name.clone());
        push_str_prop(&mut props, "name", &name_prop);
        push_str_prop(&mut props, "pattern", &self.pattern);
        push_str_prop(&mut props, "match", &self.fmatch);
        Leaf { name: String::from_str("install"), args: Vec::new(), props }
    }
}

/// Reads an install directive back from a leaf.
pub fn decode_install(l: &Leaf) -> (r: Result<InstallDirectiveNode, BundleError>)
    ensures
        r is Ok <==> install_leaf_ok(*l),
        r matches Ok(d) ==> install_from_leaf(*l, d),
{
    if l.args.len() != 0 {
        return Err(BundleError::WrongArgumentCount(String::from_str("install")));
    }
    let mut src: Option<String> = None;
    let mut target: Option<String> = None;
    let mut name: Option<String> = None;
    let mut pattern: Option<String> = None;
    let mut fmatch: Option<String> = None;
    let mut i: usize = 0;
    while i < l.props.len()
        invariant
            i <= l.props@.len(),
            forall|j: int|
                0 <= j < i ==> install_prop_key_ok((#[trigger] l.props@[j]).key@) && l.props@[j].val
                    is Str,
            src.deep_view() == prop_last_str(l.props@.take(i as int), "src"@),
            target.deep_view() == prop_last_str(l.props@.take(i as int), "target"@),
            name.deep_view() == prop_last_str(l.props@.take(i as int), "name"@),
            pattern.deep_view() == prop_last_str(l.props@.take(i as int), "pattern"@),
            fmatch.deep_view() == prop_last_str(l.props@.take(i as int), "match"@),
        decreases l.props@.len() - i,
    {
        let p = &l.props[i];
        proof {
            lemma_install_keys_distinct();
            assert(l.props@.take(i + 1).drop_last() =~= l.props@.take(i as int));
        }
        let v = match value_str_ref(&p.val) {
            Some(s) => s.clone(),
            None => {
                return Err(BundleError::WrongValueType(p.key.clone()));
            },
        };
        if str_eq(p.key.as_str(), "src") {
            src = Some(v);
        } else if str_eq(p.key.as_str(), "target") {
            target = Some(v);
        } else if str_eq(p.key.as_str(), "name") {
            name = Some(v);
        } else if str_eq(p.key.as_str(), "pattern") {
            pattern = Some(v);
        } else if str_eq(p.key.as_str(), "match") {
            fmatch = Some(v);
        } else {
            return Err(BundleError::UnknownProperty(p.key.clone()));
        }
        i += 1;
    }
    proof {
        assert(l.props@.take(l.props@.len() as int) =~= l.props@);
    }
    let src_v = match src {
        Some(v) => v,
        None => {
            return Err(BundleError::MissingNode(String::from_str("src")));
        },
    };
    let target_v = match target {
        Some(v) => v,
        None => {
            return Err(BundleError::MissingNode(String::from_str("target")));
        },
    };
    let name_v = match name {
        Some(v) => v,
        None => {
            return Err(BundleError::MissingNode(String::from_str("name")));
        },
    };
    Ok(InstallDirectiveNode { src: src_v, target: target_v, name: name_v, pattern, fmatch })
}

// ---------------------------------------------------------------
// Build sections
// ---------------------------------------------------------------
/// Reads a leaf that must carry exactly one string argument.
fn decode_scalar_leaf(l: &Leaf, what: &str) -> (r: Result<String, BundleError>)
    ensures
        r is Ok <==> scalar_leaf_ok(*l),
        r matches Ok(s) ==> s@ == val_str(l.args@[0]),
{
    if l.props.len() != 0 {
        return Err(BundleError::UnknownProperty(String::from_str(what)));
    }
    if l.args.len() != 1 {
        return Err(BundleError::WrongArgumentCount(String::from_str(what)));
    }
    match value_str_ref(&l.args[0]) {
        Some(s) => Ok(s.clone()),
        None => Err(BundleError::WrongValueType(String::from_str(what))),
    }
}

/// Emits a leaf holding exactly one string argument.
fn scalar_leaf(name: &str, value: &String) -> (r: Leaf)
    ensures
        r.name@ == name@,
        scalar_leaf_ok(r),
        val_str(r.args@[0]) == value@,
{
    let mut args: Vec<Value> = Vec::new();
    args.push(Value::Str(value.clone()));
    Leaf { name: String::from_str(name), args, props: Vec::new() }
}

pub open spec fn option_children(cs: Seq<Leaf>) -> Seq<Leaf> {
    cs.filter(|l: Leaf| l.name@ == "option"@)
}

pub open spec fn flag_children(cs: Seq<Leaf>) -> Seq<Leaf> {
    cs.filter(|l: Leaf| l.name@ == "flag"@)
}

pub open spec fn configure_child_ok(l: Leaf) -> bool {
    if l.name@ == "option"@ {
        scalar_leaf_ok(l)
    } else if l.name@ == "flag"@ {
        flag_leaf_ok(l)
    } else if l.name@ == "compiler"@ || l.name@ == "linker"@ {
        scalar_leaf_ok(l)
    } else {
        false
    }
}

pub open spec fn configure_ok(b: Branch) -> bool {
    &&& b.args@.len() == 0
    &&& forall|i: int| 0 <= i < b.children@.len() ==> configure_child_ok(#[trigger] b.children@[i])
}

pub open spec fn configure_from_branch(b: Branch, c: ConfigureBuildSection) -> bool {
    &&& c.options@.len() == option_children(b.children@).len()
    &&& forall|i: int|
        0 <= i < c.options@.len() ==> (#[trigger] c.options@[i]).option@ == val_str(
            option_children(b.children@)[i].args@[0],
        )
    &&& c.flags@.len() == flag_children(b.children@).len()
    &&& forall|i: int|
        0 <= i < c.flags@.len() ==> flag_from_leaf(
            flag_children(b.children@)[i],
            #[trigger] c.flags@[i],
        )
    &&& c.compiler.deep_view() == child_scalar_of(b.children@, "compiler"@)
    &&& c.linker.deep_view() == child_scalar_of(b.children@, "linker"@)
}

proof fn lemma_configure_names_distinct()
    ensures
        "option"@ != "flag"@,
        "option"@ != "compiler"@,
        "option"@ != "linker"@,
        "flag"@ != "compiler"@,
        "flag"@ != "linker"@,
        "compiler"@ != "linker"@,
{
    reveal_strlit("option");
    reveal_strlit("flag");
    reveal_strlit("compiler");
    reveal_strlit("linker");
    assert("option"@.len() == 6 && "flag"@.len() == 4 && "compiler"@.len() == 8 && "linker"@.len()
        == 6);
    assert("option"@[0] == 'o' && "linker"@[0] == 'l');
    assert("option"@ != "linker"@);
}

impl ConfigureBuildSection {
    /// This configure section as a document branch.
    pub fn to_node(&self) -> (r: Branch)
        ensures
            r.name@ == "configure"@,
            configure_ok(r),
            configure_from_branch(r, *self),
    {
        let mut children: Vec<Leaf> = Vec::new();
        proof {
            lemma_configure_names_distinct();
            assert(option_children(children@) =~= Seq::<Leaf>::empty());
            assert(flag_children(children@) =~= Seq::<Leaf>::empty());
        }
        let mut i: usize = 0;
        while i < self.options.len()
            invariant
                i <= self.options@.len(),
                forall|j: int|
                    0 <= j < children@.len() ==> configure_child_ok(#[trigger] children@[j]),
                option_children(children@).len() == i,
                forall|j: int|
                    0 <= j < i ==> (#[trigger] self.options@[j]).option@ == val_str(
                        option_children(children@)[j].args@[0],
                    ),
                flag_children(children@).len() == 0,
                child_scalar_of(children@, "compiler"@) is None,
                child_scalar_of(children@, "linker"@) is None,
            decreases self.options@.len() - i,
        {
            let l = scalar_leaf("option", &self.options[i].option);
            proof {
                lemma_configure_names_distinct();
                assert(children@.push(l).drop_last() =~= children@);
                reveal_with_fuel(Seq::<Leaf>::filter, 2);
            }
            children.push(l);
            i += 1;
        }
        let mut k: usize = 0;
        while k < self.flags.len()
            invariant
                k <= self.flags@.len(),
                forall|j: int|
                    0 <= j < children@.len() ==> configure_child_ok(#[trigger] children@[j]),
                option_children(children@).len() == self.options@.len(),
                forall|j: int|
                    0 <= j < self.options@.len() ==> (#[trigger] self.options@[j]).option@
                        == val_str(option_children(children@)[j].args@[0]),
                flag_children(children@).len() == k,
                forall|j: int|
                    0 <= j < k ==> flag_from_leaf(
                        flag_children(children@)[j],
                        #[trigger] self.flags@[j],
                    ),
                child_scalar_of(children@, "compiler"@) is None,
                child_scalar_of(children@, "linker"@) is None,
            decreases self.flags@.len() - k,
        {
            let l = self.flags[k].to_node();
            proof {
                lemma_configure_names_distinct();
                assert(children@.push(l).drop_last() =~= children@);
                reveal_with_fuel(Seq::<Leaf>::filter, 2);
            }
            children.push(l);
            k += 1;
        }
        match &self.compiler {
            Some(c) => {
                let l = scalar_leaf("compiler", c);
                proof {
                    lemma_configure_names_distinct();
                    assert(children@.push(l).drop_last() =~= children@);
                    reveal_with_fuel(Seq::<Leaf>::filter, 2);
                }
                children.push(l);
                proof {
                    assert(last_child(children@, "compiler"@) == Some(l));
                    assert(child_scalar_of(children@, "compiler"@) == self.compiler.deep_view());
                }
            },
            None => {},
        }
        match &self.linker {
            Some(c) => {
                let l = scalar_leaf("linker", c);
                proof {
                    lemma_configure_names_distinct();
                    assert(children@.push(l).drop_last() =~= children@);
                    reveal_with_fuel(Seq::<Leaf>::filter, 2);
                }
                children.push(l);
            },
            None => {},
        }
        proof {
            assert(option_children(children@).len() == self.options@.len());
            assert(flag_children(children@).len() == self.flags@.len());
            assert(child_scalar_of(children@, "compiler"@) == self.compiler.deep_view());
            assert(child_scalar_of(children@, "linker"@) == self.linker.deep_view());
        }
        Branch { name: String::from_str("configure"), args: Vec::new(), children }
    }
}

/// Reads a configure section back from a branch.
pub fn decode_configure(b: &Branch) -> (r: Result<ConfigureBuildSection, BundleError>)
    ensures
        r is Ok <==> configure_ok(*b),
        r matches Ok(c) ==> configure_from_branch(*b, c),
{
    if b.args.len() != 0 {
        return Err(BundleError::WrongArgumentCount(String::from_str("configure")));
    }
    let mut options: Vec<BuildOptionNode> = Vec::new();
    let mut flags: Vec<BuildFlagNode> = Vec::new();
    let mut compiler: Option<String> = None;
    let mut linker: Option<String> = None;
    let mut i: usize = 0;
    while i < b.children.len()
        invariant
            i <= b.children@.len(),
            forall|j: int| 0 <= j < i ==> configure_child_ok(#[trigger] b.children@[j]),
            options@.len() == option_children(b.children@.take(i as int)).len(),
            forall|j: int|
                0 <= j < options@.len() ==> (#[trigger] options@[j]).option@ == val_str(
                    option_children(b.children@.take(i as int))[j].args@[0],
                ),
            flags@.len() == flag_children(b.children@.take(i as int)).len(),
            forall|j: int|
                0 <= j < flags@.len() ==> flag_from_leaf(
                    flag_children(b.children@.take(i as int))[j],
                    #[trigger] flags@[j],
                ),
            compiler.deep_view() == child_scalar_of(b.children@.take(i as int), "compiler"@),
            linker.deep_view() == child_scalar_of(b.children@.take(i as int), "linker"@),
        decreases b.children@.len() - i,
    {
        let l = &b.children[i];
        proof {
            lemma_configure_names_distinct();
            assert(b.children@.take(i + 1).drop_last() =~= b.children@.take(i as int));
            reveal_with_fuel(Seq::<Leaf>::filter, 2);
        }
        if str_eq(l.name.as_str(), "option") {
            match decode_scalar_leaf(l, "option") {
                Ok(s) => {
                    options.push(BuildOptionNode { option: s });
                },
                Err(e) => {
                    return Err(e);
                },
            }
        } else if str_eq(l.name.as_str(), "flag") {
            match decode_flag(l) {
                Ok(f) => {
                    flags.push(f);
                },
                Err(e) => {
                    return Err(e);
                },
            }
        } else if str_eq(l.name.as_str(), "compiler") {
            match decode_scalar_leaf(l, "compiler") {
                Ok(s) => {
                    compiler = Some(s);
                },
                Err(e) => {
                    return Err(e);
                },
            }
        } else if str_eq(l.name.as_str(), "linker") {
            match decode_scalar_leaf(l, "linker") {
                Ok(s) => {
                    linker = Some(s);
                },
                Err(e) => {
                    return Err(e);
                },
            }
        } else {
            return Err(BundleError::UnknownNode(l.name.clone()));
        }
        i += 1;
    }
    proof {
        assert(b.children@.take(b.children@.len() as int) =~= b.children@);
    }
    Ok(ConfigureBuildSection { options, flags, compiler, linker })
}

pub open spec fn script_children(cs: Seq<Leaf>) -> Seq<Leaf> {
    cs.filter(|l: Leaf| l.name@ == "script"@)
}

pub open spec fn install_children(cs: Seq<Leaf>) -> Seq<Leaf> {
    cs.filter(|l: Leaf| l.name@ == "install"@)
}

pub open spec fn scriptsec_child_ok(l: Leaf) -> bool {
    if l.name@ == "script"@ {
        script_leaf_ok(l)
    } else if l.name@ == "install"@ {
        install_leaf_ok(l)
    } else {
        false
    }
}

pub open spec fn scriptsec_ok(b: Branch) -> bool {
    &&& b.args@.len() == 0
    &&& forall|i: int| 0 <= i < b.children@.len() ==> scriptsec_child_ok(#[trigger] b.children@[i])
}

pub open spec fn scriptsec_from_branch(b: Branch, s: ScriptBuildSection) -> bool {
    &&& s.scripts@.len() == script_children(b.children@).len()
    &&& forall|i: int|
        0 <= i < s.scripts@.len() ==> script_from_leaf(
            script_children(b.children@)[i],
            #[trigger] s.scripts@[i],
        )
    &&& s.install_directives@.len() == install_children(b.children@).len()
    &&& forall|i: int|
        0 <= i < s.install_directives@.len() ==> install_from_leaf(
            install_children(b.children@)[i],
            #[trigger] s.install_directives@[i],
        )
}

proof fn lemma_scriptsec_names_distinct()
    ensures
        "script"@ != "install"@,
{
    reveal_strlit("script");
    reveal_strlit("install");
    assert("script"@.len() == 6 && "install"@.len() == 7);
}

impl ScriptBuildSection {
    /// This script build section as a document branch.
    pub fn to_node(&self) -> (r: Branch)
        ensures
            r.name@ == "build"@,
            scriptsec_ok(r),
            scriptsec_from_branch(r, *self),
    {
        let mut children: Vec<Leaf> = Vec::new();
        proof {
            lemma_scriptsec_names_distinct();
            assert(script_children(children@) =~= Seq::<Leaf>::empty());
            assert(install_children(children@) =~= Seq::<Leaf>::empty());
        }
        let mut i: usize = 0;
        while i < self.scripts.len()
            invariant
                i <= self.scripts@.len(),
                forall|j: int|
                    0 <= j < children@.len() ==> scriptsec_child_ok(#[trigger] children@[j]),
                script_children(children@).len() == i,
                forall|j: int|
                    0 <= j < i ==> script_from_leaf(
                        script_children(children@)[j],
                        #[trigger] self.scripts@[j],
                    ),
                install_children(children@).len() == 0,
            decreases self.scripts@.len() - i,
        {
            let l = self.scripts[i].to_node();
            proof {
                lemma_scriptsec_names_distinct();
                assert(children@.push(l).drop_last() =~= children@);
                reveal_with_fuel(Seq::<Leaf>::filter, 2);
            }
            children.push(l);
            i += 1;
        }
        let mut k: usize = 0;
        while k < self.install_directives.len()
            invariant
                k <= self.install_directives@.len(),
                forall|j: int|
                    0 <= j < children@.len() ==> scriptsec_child_ok(#[trigger] children@[j]),
                script_children(children@).len() == self.scripts@.len(),
                forall|j: int|
                    0 <= j < self.scripts@.len() ==> script_from_leaf(
                        script_children(children@)[j],
                        #[trigger] self.scripts@[j],
                    ),
                install_children(children@).len() == k,
                forall|j: int|
                    0 <= j < k ==> install_from_leaf(
                        install_children(children@)[j],
                        #[trigger] self.install_directives@[j],
                    ),
            decreases self.install_directives@.len() - k,
        {
            let l = self.install_directives[k].to_node();
            proof {
                lemma_scriptsec_names_distinct();
                assert(children@.push(l).drop_last() =~= children@);
                reveal_with_fuel(Seq::<Leaf>::filter, 2);
            }
            children.push(l);
            k += 1;
        }
        Branch { name: String::from_str("build"), args: Vec::new(), children }
    }
}

/// Reads a script build section back from a branch.
pub fn decode_scriptsec(b: &Branch) -> (r: Result<ScriptBuildSection, BundleError>)
    ensures
        r is Ok <==> scriptsec_ok(*b),
        r matches Ok(s) ==> scriptsec_from_branch(*b, s),
{
    if b.args.len() != 0 {
        return Err(BundleError::WrongArgumentCount(String::from_str("build")));
    }
    let mut scripts: Vec<ScriptNode> = Vec::new();
    let mut install_directives: Vec<InstallDirectiveNode> = Vec::new();
    let mut i: usize = 0;
    while i < b.children.len()
        invariant
            i <= b.children@.len(),
            forall|j: int| 0 <= j < i ==> scriptsec_child_ok(#[trigger] b.children@[j]),
            scripts@.len() == script_children(b.children@.take(i as int)).len(),
            forall|j: int|
                0 <= j < scripts@.len() ==> script_from_leaf(
                    script_children(b.children@.take(i as int))[j],
                    #[trigger] scripts@[j],
                ),
            install_directives@.len() == install_children(b.children@.take(i as int)).len(),
            forall|j: int|
                0 <= j < install_directives@.len() ==> install_from_leaf(
                    install_children(b.children@.take(i as int))[j],
                    #[trigger] install_directives@[j],
                ),
        decreases b.children@.len() - i,
    {
        let l = &b.children[i];
        proof {
            lemma_scriptsec_names_distinct();
            assert(b.children@.take(i + 1).drop_last() =~= b.children@.take(i as int));
            reveal_with_fuel(Seq::<Leaf>::filter, 2);
        }
        if str_eq(l.name.as_str(), "script") {
            match decode_script(l) {
                Ok(s) => {
                    scripts.push(s);
                },
                Err(e) => {
                    return Err(e);
                },
            }
        } else if str_eq(l.name.as_str(), "install") {
            match decode_install(l) {
                Ok(d) => {
                    install_directives.push(d);
                },
                Err(e) => {
                    return Err(e);
                },
            }
        } else {
            return Err(BundleError::UnknownNode(l.name.clone()));
        }
        i += 1;
    }
    proof {
        assert(b.children@.take(b.children@.len() as int) =~= b.children@);
    }
    Ok(ScriptBuildSection { scripts, install_directives })
}

/// The node names that declare a build section.
pub open spec fn is_build_name(n: Seq<char>) -> bool {
    ||| n == "configure"@
    ||| n == "build"@
    ||| n == "no-build"@
    ||| n == "cmake"@
    ||| n == "meson"@
}

pub open spec fn build_item_ok(it: PkgItem) -> bool {
    match it {
        PkgItem::Branch(b) => if b.name@ == "configure"@ {
            configure_ok(b)
        } else if b.name@ == "build"@ {
            scriptsec_ok(b)
        } else {
            false
        },
        PkgItem::Leaf(l) => (l.name@ == "no-build"@ || l.name@ == "cmake"@ || l.name@ == "meson"@)
            && bare_leaf_ok(l),
    }
}

pub open spec fn build_from_item(it: PkgItem, b: BuildSection) -> bool {
    match it {
        PkgItem::Branch(br) => if br.name@ == "configure"@ {
            b is Configure && configure_from_branch(br, b->Configure_0)
        } else if br.name@ == "build"@ {
            b is Build && scriptsec_from_branch(br, b->Build_0)
        } else {
            false
        },
        PkgItem::Leaf(l) => if l.name@ == "no-build"@ {
            b is NoBuild
        } else if l.name@ == "cmake"@ {
            b is CMake
        } else if l.name@ == "meson"@ {
            b is Meson
        } else {
            false
        },
    }
}

impl BuildSection {
    /// This build section as a top-level document node.
    pub fn to_node(&self) -> (r: PkgItem)
        ensures
            item_name(r) == crate::bundle::build_tag(*self),
            is_build_name(item_name(r)),
            build_item_ok(r),
            build_from_item(r, *self),
    {
        proof {
            lemma_build_names_distinct();
        }
        match self {
            BuildSection::Configure(c) => PkgItem::Branch(c.to_node()),
            BuildSection::CMake => PkgItem::Leaf(
                Leaf { name: String::from_str("cmake"), args: Vec::new(), props: Vec::new() },
            ),
            BuildSection::Meson => PkgItem::Leaf(
                Leaf { name: String::from_str("meson"), args: Vec::new(), props: Vec::new() },
            ),
            BuildSection::Build(s) => PkgItem::Branch(s.to_node()),
            BuildSection::NoBuild => PkgItem::Leaf(
                Leaf { name: String::from_str("no-build"), args: Vec::new(), props: Vec::new() },
            ),
        }
    }
}

proof fn lemma_build_names_distinct()
    ensures
        "configure"@ != "build"@,
        "configure"@ != "no-build"@,
        "configure"@ != "cmake"@,
        "configure"@ != "meson"@,
        "build"@ != "no-build"@,
        "build"@ != "cmake"@,
        "build"@ != "meson"@,
        "no-build"@ != "cmake"@,
        "no-build"@ != "meson"@,
        "cmake"@ != "meson"@,
{
    reveal_strlit("configure");
    reveal_strlit("build");
    reveal_strlit("no-build");
    reveal_strlit("cmake");
    reveal_strlit("meson");
    assert("configure"@.len() == 9 && "build"@.len() == 5 && "no-build"@.len() == 8
        && "cmake"@.len() == 5 && "meson"@.len() == 5);
    assert("build"@[0] == 'b' && "cmake"@[0] == 'c' && "meson"@[0] == 'm');
    assert("build"@ != "cmake"@);
    assert("build"@ != "meson"@);
    assert("cmake"@ != "meson"@);
}

/// Reads a build section back from a top-level node whose name is a
/// build name.
pub fn decode_build_item(it: &PkgItem) -> (r: Result<BuildSection, BundleError>)
    requires
        is_build_name(item_name(*it)),
    ensures
        r is Ok <==> build_item_ok(*it),
        r matches Ok(b) ==> build_from_item(*it, b),
{
    proof {
        lemma_build_names_distinct();
    }
    match it {
        PkgItem::Branch(b) => {
            if str_eq(b.name.as_str(), "configure") {
                match decode_configure(b) {
                    Ok(c) => Ok(BuildSection::Configure(c)),
                    Err(e) => Err(e),
                }
            } else if str_eq(b.name.as_str(), "build") {
                match decode_scriptsec(b) {
                    Ok(s) => Ok(BuildSection::Build(s)),
                    Err(e) => Err(e),
                }
            } else {
                Err(BundleError::UnknownBuildType(b.name.clone()))
            }
        },
        PkgItem::Leaf(l) => {
            if l.args.len() != 0 {
                return Err(BundleError::WrongArgumentCount(l.name.clone()));
            }
            if l.props.len() != 0 {
                return Err(BundleError::UnknownProperty(l.name.clone()));
            }
            if str_eq(l.name.as_str(), "no-build") {
                Ok(BuildSection::NoBuild)
            } else if str_eq(l.name.as_str(), "cmake") {
                Ok(BuildSection::CMake)
            } else if str_eq(l.name.as_str(), "meson") {
                Ok(BuildSection::Meson)
            } else {
                Err(BundleError::UnknownBuildType(l.name.clone()))
            }
        },
    }
}

// ---------------------------------------------------------------
// The package document
// ---------------------------------------------------------------
/// Every node name of the package grammar is distinct from every
/// other.
proof fn lemma_pkg_names_distinct()
    ensures
        "name"@ != "project-name"@,
        "name"@ != "classification"@,
        "name"@ != "summary"@,
        "name"@ != "license-file"@,
        "name"@ != "license"@,
        "name"@ != "prefix"@,
        "name"@ != "version"@,
        "name"@ != "revision"@,
        "name"@ != "project-url"@,
        "name"@ != "maintainer"@,
        "name"@ != "seperate-build-dir"@,
        "name"@ != "source"@,
        "name"@ != "dependency"@,
        "name"@ != "configure"@,
        "name"@ != "build"@,
        "name"@ != "no-build"@,
        "name"@ != "cmake"@,
        "name"@ != "meson"@,
        "project-name"@ != "classification"@,
        "project-name"@ != "summary"@,
        "project-name"@ != "license-file"@,
        "project-name"@ != "license"@,
        "project-name"@ != "prefix"@,
        "project-name"@ != "version"@,
        "project-name"@ != "revision"@,
        "project-name"@ != "project-url"@,
        "project-name"@ != "maintainer"@,
        "project-name"@ != "seperate-build-dir"@,
        "project-name"@ != "source"@,
        "project-name"@ != "dependency"@,
        "project-name"@ != "configure"@,
        "project-name"@ != "build"@,
        "project-name"@ != "no-build"@,
        "project-name"@ != "cmake"@,
        "project-name"@ != "meson"@,
        "classification"@ != "summary"@,
        "classification"@ != "license-file"@,
        "classification"@ != "license"@,
        "classification"@ != "prefix"@,
        "classification"@ != "version"@,
        "classification"@ != "revision"@,
        "classification"@ != "project-url"@,
        "classification"@ != "maintainer"@,
        "classification"@ != "seperate-build-dir"@,
        "classification"@ != "source"@,
        "classification"@ != "dependency"@,
        "classification"@ != "configure"@,
        "classification"@ != "build"@,
        "classification"@ != "no-build"@,
        "classification"@ != "cmake"@,
        "classification"@ != "meson"@,
        "summary"@ != "license-file"@,
        "summary"@ != "license"@,
        "summary"@ != "prefix"@,
        "summary"@ != "version"@,
        "summary"@ != "revision"@,
        "summary"@ != "project-url"@,
        "summary"@ != "maintainer"@,
        "summary"@ != "seperate-build-dir"@,
        "summary"@ != "source"@,
        "summary"@ != "dependency"@,
        "summary"@ != "configure"@,
        "summary"@ != "build"@,
        "summary"@ != "no-build"@,
        "summary"@ != "cmake"@,
        "summary"@ != "meson"@,
        "license-file"@ != "license"@,
        "license-file"@ != "prefix"@,
        "license-file"@ != "version"@,
        "license-file"@ != "revision"@,
        "license-file"@ != "project-url"@,
        "license-file"@ != "maintainer"@,
        "license-file"@ != "seperate-build-dir"@,
        "license-file"@ != "source"@,
        "license-file"@ != "dependency"@,
        "license-file"@ != "configure"@,
        "license-file"@ != "build"@,
        "license-file"@ != "no-build"@,
        "license-file"@ != "cmake"@,
        "license-file"@ != "meson"@,
        "license"@ != "prefix"@,
        "license"@ != "version"@,
        "license"@ != "revision"@,
        "license"@ != "project-url"@,
        "license"@ != "maintainer"@,
        "license"@ != "seperate-build-dir"@,
        "license"@ != "source"@,
        "license"@ != "dependency"@,
        "license"@ != "configure"@,
        "license"@ != "build"@,
        "license"@ != "no-build"@,
        "license"@ != "cmake"@,
        "license"@ != "meson"@,
        "prefix"@ != "version"@,
        "prefix"@ != "revision"@,
        "prefix"@ != "project-url"@,
        "prefix"@ != "maintainer"@,
        "prefix"@ != "seperate-build-dir"@,
        "prefix"@ != "source"@,
        "prefix"@ != "dependency"@,
        "prefix"@ != "configure"@,
        "prefix"@ != "build"@,
        "prefix"@ != "no-build"@,
        "prefix"@ != "cmake"@,
        "prefix"@ != "meson"@,
        "version"@ != "revision"@,
        "version"@ != "project-url"@,
        "version"@ != "maintainer"@,
        "version"@ != "seperate-build-dir"@,
        "version"@ != "source"@,
        "version"@ != "dependency"@,
        "version"@ != "configure"@,
        "version"@ != "build"@,
        "version"@ != "no-build"@,
        "version"@ != "cmake"@,
        "version"@ != "meson"@,
        "revision"@ != "project-url"@,
        "revision"@ != "maintainer"@,
        "revision"@ != "seperate-build-dir"@,
        "revision"@ != "source"@,
        "revision"@ != "dependency"@,
        "revision"@ != "configure"@,
        "revision"@ != "build"@,
        "revision"@ != "no-build"@,
        "revision"@ != "cmake"@,
        "revision"@ != "meson"@,
        "project-url"@ != "maintainer"@,
        "project-url"@ != "seperate-build-dir"@,
        "project-url"@ != "source"@,
        "project-url"@ != "dependency"@,
        "project-url"@ != "configure"@,
        "project-url"@ != "build"@,
        "project-url"@ != "no-build"@,
        "project-url"@ != "cmake"@,
        "project-url"@ != "meson"@,
        "maintainer"@ != "seperate-build-dir"@,
        "maintainer"@ != "source"@,
        "maintainer"@ != "dependency"@,
        "maintainer"@ != "configure"@,
        "maintainer"@ != "build"@,
        "maintainer"@ != "no-build"@,
        "maintainer"@ != "cmake"@,
        "maintainer"@ != "meson"@,
        "seperate-build-dir"@ != "source"@,
        "seperate-build-dir"@ != "dependency"@,
        "seperate-build-dir"@ != "configure"@,
        "seperate-build-dir"@ != "build"@,
        "seperate-build-dir"@ != "no-build"@,
        "seperate-build-dir"@ != "cmake"@,
        "seperate-build-dir"@ != "meson"@,
        "source"@ != "dependency"@,
        "source"@ != "configure"@,
        "source"@ != "build"@,
        "source"@ != "no-build"@,
        "source"@ != "cmake"@,
        "source"@ != "meson"@,
        "dependency"@ != "configure"@,
        "dependency"@ != "build"@,
        "dependency"@ != "no-build"@,
        "dependency"@ != "cmake"@,
        "dependency"@ != "meson"@,
        "configure"@ != "build"@,
        "configure"@ != "no-build"@,
        "configure"@ != "cmake"@,
        "configure"@ != "meson"@,
        "build"@ != "no-build"@,
        "build"@ != "cmake"@,
        "build"@ != "meson"@,
        "no-build"@ != "cmake"@,
        "no-build"@ != "meson"@,
        "cmake"@ != "meson"@,
{
    reveal_strlit("name");
    reveal_strlit("project-name");
    reveal_strlit("classification");
    reveal_strlit("summary");
    reveal_strlit("license-file");
    reveal_strlit("license");
    reveal_strlit("prefix");
    reveal_strlit("version");
    reveal_strlit("revision");
    reveal_strlit("project-url");
    reveal_strlit("maintainer");
    reveal_strlit("seperate-build-dir");
    reveal_strlit("source");
    reveal_strlit("dependency");
    reveal_strlit("configure");
    reveal_strlit("build");
    reveal_strlit("no-build");
    reveal_strlit("cmake");
    reveal_strlit("meson");
    assert("name"@.len() == 4 && "project-name"@.len() == 12 && "classification"@.len() == 14 && "summary"@.len() == 7 && "license-file"@.len() == 12 && "license"@.len() == 7 && "prefix"@.len() == 6 && "version"@.len() == 7 && "revision"@.len() == 8 && "project-url"@.len() == 11 && "maintainer"@.len() == 10 && "seperate-build-dir"@.len() == 18 && "source"@.len() == 6 && "dependency"@.len() == 10 && "configure"@.len() == 9 && "build"@.len() == 5 && "no-build"@.len() == 8 && "cmake"@.len() == 5 && "meson"@.len() == 5);
    assert("project-name"@[0] == 'p' && "license-file"@[0] == 'l');
    assert("project-name"@ != "license-file"@);
    assert("summary"@[0] == 's' && "license"@[0] == 'l');
    assert("summary"@ != "license"@);
    assert("summary"@[0] == 's' && "version"@[0] == 'v');
    assert("summary"@ != "version"@);
    assert("license"@[0] == 'l' && "version"@[0] == 'v');
    assert("license"@ != "version"@);
    assert("prefix"@[0] == 'p' && "source"@[0] == 's');
    assert("prefix"@ != "source"@);
    assert("revision"@[0] == 'r' && "no-build"@[0] == 'n');
    assert("revision"@ != "no-build"@);
    assert("maintainer"@[0] == 'm' && "dependency"@[0] == 'd');
    assert("maintainer"@ != "dependency"@);
    assert("build"@[0] == 'b' && "cmake"@[0] == 'c');
    assert("build"@ != "cmake"@);
    assert("build"@[0] == 'b' && "meson"@[0] == 'm');
    assert("build"@ != "meson"@);
    assert("cmake"@[0] == 'c' && "meson"@[0] == 'm');
    assert("cmake"@ != "meson"@);
}

/// The node names that hold a single scalar field of the package.
pub open spec fn pkg_scalar_name(n: Seq<char>) -> bool {
    ||| n == "name"@
    ||| n == "project-name"@
    ||| n == "classification"@
    ||| n == "summary"@
    ||| n == "license-file"@
    ||| n == "license"@
    ||| n == "prefix"@
    ||| n == "version"@
    ||| n == "revision"@
    ||| n == "project-url"@
}

pub open spec fn maintainer_items(items: Seq<PkgItem>) -> Seq<PkgItem> {
    items.filter(|it: PkgItem| item_name(it) == "maintainer"@)
}

pub open spec fn source_items(items: Seq<PkgItem>) -> Seq<PkgItem> {
    items.filter(|it: PkgItem| item_name(it) == "source"@)
}

pub open spec fn dependency_items(items: Seq<PkgItem>) -> Seq<PkgItem> {
    items.filter(|it: PkgItem| item_name(it) == "dependency"@)
}

pub open spec fn build_items(items: Seq<PkgItem>) -> Seq<PkgItem> {
    items.filter(|it: PkgItem| is_build_name(item_name(it)))
}

/// One top-level node of a well-formed package document.
pub open spec fn pkg_item_ok(it: PkgItem) -> bool {
    let n = item_name(it);
    if pkg_scalar_name(n) || n == "maintainer"@ {
        it is Leaf && scalar_leaf_ok(it->Leaf_0)
    } else if n == "seperate-build-dir"@ {
        it is Leaf && bare_leaf_ok(it->Leaf_0)
    } else if n == "source"@ {
        it is Branch && section_ok(it->Branch_0)
    } else if n == "dependency"@ {
        it is Leaf && dep_leaf_ok(it->Leaf_0)
    } else if is_build_name(n) {
        build_item_ok(it)
    } else {
        false
    }
}

/// A well-formed package document: every node is known and shaped
/// right, and the two required scalars are present.
pub open spec fn pkg_wf_doc(items: Seq<PkgItem>) -> bool {
    &&& forall|i: int| 0 <= i < items.len() ==> pkg_item_ok(#[trigger] items[i])
    &&& last_named(items, "name"@) is Some
    &&& last_named(items, "project-name"@) is Some
}

/// What package a document describes: each scalar is the winning
/// node of its name, and the maintainer, source, dependency and
/// build lists collect their nodes in document order.
pub open spec fn pkg_from_doc(items: Seq<PkgItem>, p: Package) -> bool {
    &&& Some(p.name@) == scalar_of(items, "name"@)
    &&& Some(p.project_name@) == scalar_of(items, "project-name"@)
    &&& p.classification.deep_view() == scalar_of(items, "classification"@)
    &&& p.summary.deep_view() == scalar_of(items, "summary"@)
    &&& p.license_file.deep_view() == scalar_of(items, "license-file"@)
    &&& p.license.deep_view() == scalar_of(items, "license"@)
    &&& p.prefix.deep_view() == scalar_of(items, "prefix"@)
    &&& p.version.deep_view() == scalar_of(items, "version"@)
    &&& p.revision.deep_view() == scalar_of(items, "revision"@)
    &&& p.project_url.deep_view() == scalar_of(items, "project-url"@)
    &&& p.maintainers@.len() == maintainer_items(items).len()
    &&& forall|i: int|
        0 <= i < p.maintainers@.len() ==> (#[trigger] p.maintainers@[i])@ == leaf_arg_str(
            maintainer_items(items)[i],
        )
    &&& p.seperate_build_dir == (last_named(items, "seperate-build-dir"@) is Some)
    &&& p.sources@.len() == source_items(items).len()
    &&& forall|i: int|
        0 <= i < p.sources@.len() ==> section_from_branch(
            source_items(items)[i]->Branch_0,
            #[trigger] p.sources@[i],
        )
    &&& p.dependencies@.len() == dependency_items(items).len()
    &&& forall|i: int|
        0 <= i < p.dependencies@.len() ==> dep_from_leaf(
            dependency_items(items)[i]->Leaf_0,
            #[trigger] p.dependencies@[i],
        )
    &&& p.build_section@.len() == build_items(items).len()
    &&& forall|i: int|
        0 <= i < p.build_section@.len() ==> build_from_item(
            build_items(items)[i],
            #[trigger] p.build_section@[i],
        )
}

/// Appends a scalar node and says how every lookup moved.
fn push_scalar_item(items: &mut Vec<PkgItem>, name: &str, value: &String)
    requires
        pkg_scalar_name(name@) || name@ == "maintainer"@,
    ensures
        final(items)@.len() == old(items)@.len() + 1,
        forall|i: int| 0 <= i < old(items)@.len() ==> #[trigger] final(items)@[i] == old(
            items,
        )@[i],
        pkg_item_ok(final(items)@.last()),
        scalar_of(final(items)@, name@) == Some(value@),
        forall|nm: Seq<char>|
            nm != name@ ==> #[trigger] last_named(final(items)@, nm) == last_named(
                old(items)@,
                nm,
            ) && scalar_of(final(items)@, nm) == scalar_of(old(items)@, nm),
        maintainer_items(final(items)@) == (if name@ == "maintainer"@ {
            maintainer_items(old(items)@).push(final(items)@.last())
        } else {
            maintainer_items(old(items)@)
        }),
        name@ == "maintainer"@ ==> leaf_arg_str(final(items)@.last()) == value@,
        source_items(final(items)@) == source_items(old(items)@),
        dependency_items(final(items)@) == dependency_items(old(items)@),
        build_items(final(items)@) == build_items(old(items)@),
{
    proof {
        lemma_pkg_names_distinct();
        lemma_build_names_distinct();
    }
    let l = scalar_leaf(name, value);
    let it = PkgItem::Leaf(l);
    proof {
        assert(old(items)@.push(it).drop_last() =~= old(items)@);
        reveal_with_fuel(Seq::<PkgItem>::filter, 2);
    }
    items.push(it);
}

/// Appends a scalar node when the value is set; nothing moves when it
/// is not.
fn push_opt_scalar_item(items: &mut Vec<PkgItem>, name: &str, value: &Option<String>)
    requires
        pkg_scalar_name(name@),
        value is None ==> scalar_of(old(items)@, name@) is None,
    ensures
        forall|i: int| 0 <= i < old(items)@.len() ==> #[trigger] final(items)@[i] == old(
            items,
        )@[i],
        final(items)@.len() == old(items)@.len() + (if value is Some {
            1int
        } else {
            0int
        }),
        forall|i: int|
            old(items)@.len() <= i < final(items)@.len() ==> pkg_item_ok(
                #[trigger] final(items)@[i],
            ),
        scalar_of(final(items)@, name@) == value.deep_view(),
        forall|nm: Seq<char>|
            nm != name@ ==> #[trigger] last_named(final(items)@, nm) == last_named(
                old(items)@,
                nm,
            ) && scalar_of(final(items)@, nm) == scalar_of(old(items)@, nm),
        maintainer_items(final(items)@) == maintainer_items(old(items)@),
        source_items(final(items)@) == source_items(old(items)@),
        dependency_items(final(items)@) == dependency_items(old(items)@),
        build_items(final(items)@) == build_items(old(items)@),
{
    proof {
        lemma_pkg_names_distinct();
    }
    match value {
        Some(v) => {
            push_scalar_item(items, name, v);
        },
        None => {},
    }
}

/// Appends the bare node that marks an out-of-tree build.
fn push_bare_item(items: &mut Vec<PkgItem>, name: &str)
    requires
        name@ == "seperate-build-dir"@,
    ensures
        final(items)@.len() == old(items)@.len() + 1,
        forall|i: int| 0 <= i < old(items)@.len() ==> #[trigger] final(items)@[i] == old(
            items,
        )@[i],
        pkg_item_ok(final(items)@.last()),
        last_named(final(items)@, name@) is Some,
        forall|nm: Seq<char>|
            nm != name@ ==> #[trigger] last_named(final(items)@, nm) == last_named(
                old(items)@,
                nm,
            ) && scalar_of(final(items)@, nm) == scalar_of(old(items)@, nm),
        maintainer_items(final(items)@) == maintainer_items(old(items)@),
        source_items(final(items)@) == source_items(old(items)@),
        dependency_items(final(items)@) == dependency_items(old(items)@),
        build_items(final(items)@) == build_items(old(items)@),
{
    proof {
        lemma_pkg_names_distinct();
        lemma_build_names_distinct();
    }
    let l = Leaf { name: String::from_str(name), args: Vec::new(), props: Vec::new() };
    let it = PkgItem::Leaf(l);
    proof {
        assert(old(items)@.push(it).drop_last() =~= old(items)@);
        reveal_with_fuel(Seq::<PkgItem>::filter, 2);
    }
    items.push(it);
}

/// Appends a source section node.
fn push_section_item(items: &mut Vec<PkgItem>, s: &SourceSection)
    ensures
        final(items)@.len() == old(items)@.len() + 1,
        forall|i: int| 0 <= i < old(items)@.len() ==> #[trigger] final(items)@[i] == old(
            items,
        )@[i],
        pkg_item_ok(final(items)@.last()),
        forall|nm: Seq<char>|
            nm != "source"@ ==> #[trigger] last_named(final(items)@, nm) == last_named(
                old(items)@,
                nm,
            ) && scalar_of(final(items)@, nm) == scalar_of(old(items)@, nm),
        maintainer_items(final(items)@) == maintainer_items(old(items)@),
        source_items(final(items)@) == source_items(old(items)@).push(final(items)@.last()),
        final(items)@.last() is Branch && section_from_branch(
            final(items)@.last()->Branch_0,
            *s,
        ),
        dependency_items(final(items)@) == dependency_items(old(items)@),
        build_items(final(items)@) == build_items(old(items)@),
{
    proof {
        lemma_pkg_names_distinct();
        lemma_build_names_distinct();
    }
    let b = s.to_node();
    let it = PkgItem::Branch(b);
    proof {
        assert(old(items)@.push(it).drop_last() =~= old(items)@);
        reveal_with_fuel(Seq::<PkgItem>::filter, 2);
    }
    items.push(it);
}

/// Appends a dependency node.
fn push_dep_item(items: &mut Vec<PkgItem>, d: &Dependency)
    ensures
        final(items)@.len() == old(items)@.len() + 1,
        forall|i: int| 0 <= i < old(items)@.len() ==> #[trigger] final(items)@[i] == old(
            items,
        )@[i],
        pkg_item_ok(final(items)@.last()),
        forall|nm: Seq<char>|
            nm != "dependency"@ ==> #[trigger] last_named(final(items)@, nm) == last_named(
                old(items)@,
                nm,
            ) && scalar_of(final(items)@, nm) == scalar_of(old(items)@, nm),
        maintainer_items(final(items)@) == maintainer_items(old(items)@),
        source_items(final(items)@) == source_items(old(items)@),
        dependency_items(final(items)@) == dependency_items(old(items)@).push(
            final(items)@.last(),
        ),
        final(items)@.last() is Leaf && dep_from_leaf(final(items)@.last()->Leaf_0, *d),
        build_items(final(items)@) == build_items(old(items)@),
{
    proof {
        lemma_pkg_names_distinct();
        lemma_build_names_distinct();
    }
    let l = d.to_node();
    let it = PkgItem::Leaf(l);
    proof {
        assert(old(items)@.push(it).drop_last() =~= old(items)@);
        reveal_with_fuel(Seq::<PkgItem>::filter, 2);
    }
    items.push(it);
}

/// Appends a build section node.
fn push_build_item(items: &mut Vec<PkgItem>, b: &BuildSection)
    ensures
        final(items)@.len() == old(items)@.len() + 1,
        forall|i: int| 0 <= i < old(items)@.len() ==> #[trigger] final(items)@[i] == old(
            items,
        )@[i],
        pkg_item_ok(final(items)@.last()),
        forall|nm: Seq<char>|
            !is_build_name(nm) ==> #[trigger] last_named(final(items)@, nm) == last_named(
                old(items)@,
                nm,
            ) && scalar_of(final(items)@, nm) == scalar_of(old(items)@, nm),
        maintainer_items(final(items)@) == maintainer_items(old(items)@),
        source_items(final(items)@) == source_items(old(items)@),
        dependency_items(final(items)@) == dependency_items(old(items)@),
        build_items(final(items)@) == build_items(old(items)@).push(final(items)@.last()),
        build_from_item(final(items)@.last(), *b),
{
    proof {
        lemma_pkg_names_distinct();
        lemma_build_names_distinct();
    }
    let it = b.to_node();
    proof {
        assert(old(items)@.push(it).drop_last() =~= old(items)@);
        reveal_with_fuel(Seq::<PkgItem>::filter, 2);
    }
    items.push(it);
}

impl Package {
    /// This package written out as a document: the scalars first,
    /// then the maintainers, sources, the build section and the
    /// dependencies.  Reading the result back yields this package.
    #[verifier::rlimit(60)]
    pub fn to_document(&self) -> (r: Vec<PkgItem>)
        requires
            self.build_section@.len() <= 1,
        ensures
            pkg_wf_doc(r@),
            pkg_from_doc(r@, *self),
    {
        proof {
            lemma_pkg_names_distinct();
            lemma_build_names_distinct();
        }
        let mut items: Vec<PkgItem> = Vec::new();
        proof {
            reveal_with_fuel(Seq::<PkgItem>::filter, 2);
            assert(maintainer_items(items@) =~= Seq::<PkgItem>::empty());
            assert(source_items(items@) =~= Seq::<PkgItem>::empty());
            assert(dependency_items(items@) =~= Seq::<PkgItem>::empty());
            assert(build_items(items@) =~= Seq::<PkgItem>::empty());
        }
        push_scalar_item(&mut items, "name", &self.name);
        push_scalar_item(&mut items, "project-name", &self.project_name);
        push_opt_scalar_item(&mut items, "classification", &self.classification);
        push_opt_scalar_item(&mut items, "summary", &self.summary);
        push_opt_scalar_item(&mut items, "license-file", &self.license_file);
        push_opt_scalar_item(&mut items, "license", &self.license);
        push_opt_scalar_item(&mut items, "prefix", &self.prefix);
        push_opt_scalar_item(&mut items, "version", &self.version);
        push_opt_scalar_item(&mut items, "revision", &self.revision);
        push_opt_scalar_item(&mut items, "project-url", &self.project_url);
        let mut i: usize = 0;
        while i < self.maintainers.len()
            invariant
                i <= self.maintainers@.len(),
                forall|j: int| 0 <= j < items@.len() ==> pkg_item_ok(#[trigger] items@[j]),
                scalar_of(items@, "name"@) == Some(self.name@),
                scalar_of(items@, "project-name"@) == Some(self.project_name@),
                scalar_of(items@, "classification"@) == self.classification.deep_view(),
                scalar_of(items@, "summary"@) == self.summary.deep_view(),
                scalar_of(items@, "license-file"@) == self.license_file.deep_view(),
                scalar_of(items@, "license"@) == self.license.deep_view(),
                scalar_of(items@, "prefix"@) == self.prefix.deep_view(),
                scalar_of(items@, "version"@) == self.version.deep_view(),
                scalar_of(items@, "revision"@) == self.revision.deep_view(),
                scalar_of(items@, "project-url"@) == self.project_url.deep_view(),
                last_named(items@, "seperate-build-dir"@) is None,
                maintainer_items(items@).len() == i,
                forall|j: int|
                    0 <= j < i ==> leaf_arg_str(maintainer_items(items@)[j]) == (
                    #[trigger] self.maintainers@[j])@,
                source_items(items@).len() == 0,
                dependency_items(items@).len() == 0,
                build_items(items@).len() == 0,
            decreases self.maintainers@.len() - i,
        {
            proof {
                lemma_pkg_names_distinct();
            }
            push_scalar_item(&mut items, "maintainer", &self.maintainers[i]);
            i += 1;
        }
        if self.seperate_build_dir {
            push_bare_item(&mut items, "seperate-build-dir");
        }
        let mut k: usize = 0;
        while k < self.sources.len()
            invariant
                k <= self.sources@.len(),
                forall|j: int| 0 <= j < items@.len() ==> pkg_item_ok(#[trigger] items@[j]),
                scalar_of(items@, "name"@) == Some(self.name@),
                scalar_of(items@, "project-name"@) == Some(self.project_name@),
                scalar_of(items@, "classification"@) == self.classification.deep_view(),
                scalar_of(items@, "summary"@) == self.summary.deep_view(),
                scalar_of(items@, "license-file"@) == self.license_file.deep_view(),
                scalar_of(items@, "license"@) == self.license.deep_view(),
                scalar_of(items@, "prefix"@) == self.prefix.deep_view(),
                scalar_of(items@, "version"@) == self.version.deep_view(),
                scalar_of(items@, "revision"@) == self.revision.deep_view(),
                scalar_of(items@, "project-url"@) == self.project_url.deep_view(),
                (last_named(items@, "seperate-build-dir"@) is Some) == self.seperate_build_dir,
                maintainer_items(items@).len() == self.maintainers@.len(),
                forall|j: int|
                    0 <= j < self.maintainers@.len() ==> leaf_arg_str(
                        maintainer_items(items@)[j],
                    ) == (#[trigger] self.maintainers@[j])@,
                source_items(items@).len() == k,
                forall|j: int|
                    0 <= j < k ==> source_items(items@)[j] is Branch && section_from_branch(
                        (#[trigger] source_items(items@)[j])->Branch_0,
                        self.sources@[j],
                    ),
                dependency_items(items@).len() == 0,
                build_items(items@).len() == 0,
            decreases self.sources@.len() - k,
        {
            proof {
                lemma_pkg_names_distinct();
            }
            push_section_item(&mut items, &self.sources[k]);
            k += 1;
        }
        if self.build_section.len() > 0 {
            push_build_item(&mut items, &self.build_section[0]);
        }
        let mut d: usize = 0;
        while d < self.dependencies.len()
            invariant
                d <= self.dependencies@.len(),
                forall|j: int| 0 <= j < items@.len() ==> pkg_item_ok(#[trigger] items@[j]),
                scalar_of(items@, "name"@) == Some(self.name@),
                scalar_of(items@, "project-name"@) == Some(self.project_name@),
                scalar_of(items@, "classification"@) == self.classification.deep_view(),
                scalar_of(items@, "summary"@) == self.summary.deep_view(),
                scalar_of(items@, "license-file"@) == self.license_file.deep_view(),
                scalar_of(items@, "license"@) == self.license.deep_view(),
                scalar_of(items@, "prefix"@) == self.prefix.deep_view(),
                scalar_of(items@, "version"@) == self.version.deep_view(),
                scalar_of(items@, "revision"@) == self.revision.deep_view(),
                scalar_of(items@, "project-url"@) == self.project_url.deep_view(),
                (last_named(items@, "seperate-build-dir"@) is Some) == self.seperate_build_dir,
                maintainer_items(items@).len() == self.maintainers@.len(),
                forall|j: int|
                    0 <= j < self.maintainers@.len() ==> leaf_arg_str(
                        maintainer_items(items@)[j],
                    ) == (#[trigger] self.maintainers@[j])@,
                source_items(items@).len() == self.sources@.len(),
                forall|j: int|
                    0 <= j < self.sources@.len() ==> source_items(items@)[j] is Branch
                        && section_from_branch(
                        (#[trigger] source_items(items@)[j])->Branch_0,
                        self.sources@[j],
                    ),
                dependency_items(items@).len() == d,
                forall|j: int|
                    0 <= j < d ==> dependency_items(items@)[j] is Leaf && dep_from_leaf(
                        (#[trigger] dependency_items(items@)[j])->Leaf_0,
                        self.dependencies@[j],
                    ),
                build_items(items@).len() == self.build_section@.len(),
                forall|j: int|
                    0 <= j < self.build_section@.len() ==> build_from_item(
                        #[trigger] build_items(items@)[j],
                        self.build_section@[j],
                    ),
            decreases self.dependencies@.len() - d,
        {
            proof {
                lemma_pkg_names_distinct();
            }
            push_dep_item(&mut items, &self.dependencies[d]);
            d += 1;
        }
        items
    }
}


/// The name of a top-level node.
fn item_name_ref<'a>(it: &'a PkgItem) -> (r: &'a String)
    ensures
        r@ == item_name(*it),
{
    match it {
        PkgItem::Leaf(l) => &l.name,
        PkgItem::Branch(b) => &b.name,
    }
}

/// Reads a package back from a document; an unknown node, a
/// misshapen node, or a missing required scalar is refused.
#[verifier::rlimit(60)]
pub fn decode_package(items: &Vec<PkgItem>) -> (r: Result<Package, BundleError>)
    ensures
        r is Ok <==> pkg_wf_doc(items@),
        r matches Ok(p) ==> pkg_from_doc(items@, p),
{
    proof {
        lemma_pkg_names_distinct();
        lemma_build_names_distinct();
        reveal_with_fuel(Seq::<PkgItem>::filter, 2);
        assert(maintainer_items(items@.take(0)) =~= Seq::<PkgItem>::empty());
        assert(source_items(items@.take(0)) =~= Seq::<PkgItem>::empty());
        assert(dependency_items(items@.take(0)) =~= Seq::<PkgItem>::empty());
        assert(build_items(items@.take(0)) =~= Seq::<PkgItem>::empty());
    }
    let mut name_o: Option<String> = None;
    let mut project_name_o: Option<String> = None;
    let mut classification: Option<String> = None;
    let mut summary: Option<String> = None;
    let mut license_file: Option<String> = None;
    let mut license: Option<String> = None;
    let mut prefix: Option<String> = None;
    let mut version: Option<String> = None;
    let mut revision: Option<String> = None;
    let mut project_url: Option<String> = None;
    let mut maintainers: Vec<String> = Vec::new();
    let mut seperate_build_dir = false;
    let mut sources: Vec<SourceSection> = Vec::new();
    let mut dependencies: Vec<Dependency> = Vec::new();
    let mut build_section: Vec<BuildSection> = Vec::new();
    let mut i: usize = 0;
    while i < items.len()
        invariant
            i <= items@.len(),
            forall|j: int| 0 <= j < i ==> pkg_item_ok(#[trigger] items@[j]),
            name_o.deep_view() == scalar_of(items@.take(i as int), "name"@),
            project_name_o.deep_view() == scalar_of(items@.take(i as int), "project-name"@),
            classification.deep_view() == scalar_of(items@.take(i as int), "classification"@),
            summary.deep_view() == scalar_of(items@.take(i as int), "summary"@),
            license_file.deep_view() == scalar_of(items@.take(i as int), "license-file"@),
            license.deep_view() == scalar_of(items@.take(i as int), "license"@),
            prefix.deep_view() == scalar_of(items@.take(i as int), "prefix"@),
            version.deep_view() == scalar_of(items@.take(i as int), "version"@),
            revision.deep_view() == scalar_of(items@.take(i as int), "revision"@),
            project_url.deep_view() == scalar_of(items@.take(i as int), "project-url"@),
            seperate_build_dir == (last_named(items@.take(i as int), "seperate-build-dir"@)
                is Some),
            maintainers@.len() == maintainer_items(items@.take(i as int)).len(),
            forall|j: int|
                0 <= j < maintainers@.len() ==> (#[trigger] maintainers@[j])@ == leaf_arg_str(
                    maintainer_items(items@.take(i as int))[j],
                ),
            sources@.len() == source_items(items@.take(i as int)).len(),
            forall|j: int|
                0 <= j < sources@.len() ==> section_from_branch(
                    source_items(items@.take(i as int))[j]->Branch_0,
                    #[trigger] sources@[j],
                ),
            dependencies@.len() == dependency_items(items@.take(i as int)).len(),
            forall|j: int|
                0 <= j < dependencies@.len() ==> dep_from_leaf(
                    dependency_items(items@.take(i as int))[j]->Leaf_0,
                    #[trigger] dependencies@[j],
                ),
            build_section@.len() == build_items(items@.take(i as int)).len(),
            forall|j: int|
                0 <= j < build_section@.len() ==> build_from_item(
                    build_items(items@.take(i as int))[j],
                    #[trigger] build_section@[j],
                ),
        decreases items@.len() - i,
    {
        let it = &items[i];
        proof {
            lemma_pkg_names_distinct();
            lemma_build_names_distinct();
            reveal_with_fuel(Seq::<PkgItem>::filter, 2);
            assert(items@.take(i + 1).drop_last() =~= items@.take(i as int));
            assert(items@.take(i + 1).last() == items@[i as int]);
        }
        let nm = item_name_ref(it);
        if str_eq(nm.as_str(), "name") {
            match it {
                PkgItem::Leaf(l) => match decode_scalar_leaf(l, "name") {
                    Ok(s) => {
                        name_o = Some(s);
                    },
                    Err(e) => {
                        return Err(e);
                    },
                },
                PkgItem::Branch(_) => {
                    return Err(BundleError::WrongArgumentCount(nm.clone()));
                },
            }
        } else if str_eq(nm.as_str(), "project-name") {
            match it {
                PkgItem::Leaf(l) => match decode_scalar_leaf(l, "project-name") {
                    Ok(s) => {
                        project_name_o = Some(s);
                    },
                    Err(e) => {
                        return Err(e);
                    },
                },
                PkgItem::Branch(_) => {
                    return Err(BundleError::WrongArgumentCount(nm.clone()));
                },
            }
        } else if str_eq(nm.as_str(), "classification") {
            match it {
                PkgItem::Leaf(l) => match decode_scalar_leaf(l, "classification") {
                    Ok(s) => {
                        classification = Some(s);
                    },
                    Err(e) => {
                        return Err(e);
                    },
                },
                PkgItem::Branch(_) => {
                    return Err(BundleError::WrongArgumentCount(nm.clone()));
                },
            }
        } else if str_eq(nm.as_str(), "summary") {
            match it {
                PkgItem::Leaf(l) => match decode_scalar_leaf(l, "summary") {
                    Ok(s) => {
                        summary = Some(s);
                    },
                    Err(e) => {
                        return Err(e);
                    },
                },
                PkgItem::Branch(_) => {
                    return Err(BundleError::WrongArgumentCount(nm.clone()));
                },
            }
        } else if str_eq(nm.as_str(), "license-file") {
            match it {
                PkgItem::Leaf(l) => match decode_scalar_leaf(l, "license-file") {
                    Ok(s) => {
                        license_file = Some(s);
                    },
                    Err(e) => {
                        return Err(e);
                    },
                },
                PkgItem::Branch(_) => {
                    return Err(BundleError::WrongArgumentCount(nm.clone()));
                },
            }
        } else if str_eq(nm.as_str(), "license") {
            match it {
                PkgItem::Leaf(l) => match decode_scalar_leaf(l, "license") {
                    Ok(s) => {
                        license = Some(s);
                    },
                    Err(e) => {
                        return Err(e);
                    },
                },
                PkgItem::Branch(_) => {
                    return Err(BundleError::WrongArgumentCount(nm.clone()));
                },
            }
        } else if str_eq(nm.as_str(), "prefix") {
            match it {
                PkgItem::Leaf(l) => match decode_scalar_leaf(l, "prefix") {
                    Ok(s) => {
                        prefix = Some(s);
                    },
                    Err(e) => {
                        return Err(e);
                    },
                },
                PkgItem::Branch(_) => {
                    return Err(BundleError::WrongArgumentCount(nm.clone()));
                },
            }
        } else if str_eq(nm.as_str(), "version") {
            match it {
                PkgItem::Leaf(l) => match decode_scalar_leaf(l, "version") {
                    Ok(s) => {
                        version = Some(s);
                    },
                    Err(e) => {
                        return Err(e);
                    },
                },
                PkgItem::Branch(_) => {
                    return Err(BundleError::WrongArgumentCount(nm.clone()));
                },
            }
        } else if str_eq(nm.as_str(), "revision") {
            match it {
                PkgItem::Leaf(l) => match decode_scalar_leaf(l, "revision") {
                    Ok(s) => {
                        revision = Some(s);
                    },
                    Err(e) => {
                        return Err(e);
                    },
                },
                PkgItem::Branch(_) => {
                    return Err(BundleError::WrongArgumentCount(nm.clone()));
                },
            }
        } else if str_eq(nm.as_str(), "project-url") {
            match it {
                PkgItem::Leaf(l) => match decode_scalar_leaf(l, "project-url") {
                    Ok(s) => {
                        project_url = Some(s);
                    },
                    Err(e) => {
                        return Err(e);
                    },
                },
                PkgItem::Branch(_) => {
                    return Err(BundleError::WrongArgumentCount(nm.clone()));
                },
            }
        } else if str_eq(nm.as_str(), "maintainer") {
            match it {
                PkgItem::Leaf(l) => match decode_scalar_leaf(l, "maintainer") {
                    Ok(s) => {
                        maintainers.push(s);
                    },
                    Err(e) => {
                        return Err(e);
                    },
                },
                PkgItem::Branch(_) => {
                    return Err(BundleError::WrongArgumentCount(nm.clone()));
                },
            }
        } else if str_eq(nm.as_str(), "seperate-build-dir") {
            match it {
                PkgItem::Leaf(l) => {
                    if l.args.len() != 0 {
                        return Err(BundleError::WrongArgumentCount(nm.clone()));
                    }
                    if l.props.len() != 0 {
                        return Err(BundleError::UnknownProperty(nm.clone()));
                    }
                    seperate_build_dir = true;
                },
                PkgItem::Branch(_) => {
                    return Err(BundleError::WrongArgumentCount(nm.clone()));
                },
            }
        } else if str_eq(nm.as_str(), "source") {
            match it {
                PkgItem::Branch(b) => match decode_section(b) {
                    Ok(s) => {
                        sources.push(s);
                    },
                    Err(e) => {
                        return Err(e);
                    },
                },
                PkgItem::Leaf(_) => {
                    return Err(BundleError::WrongArgumentCount(nm.clone()));
                },
            }
        } else if str_eq(nm.as_str(), "dependency") {
            match it {
                PkgItem::Leaf(l) => match decode_dependency(l) {
                    Ok(d) => {
                        dependencies.push(d);
                    },
                    Err(e) => {
                        return Err(e);
                    },
                },
                PkgItem::Branch(_) => {
                    return Err(BundleError::WrongArgumentCount(nm.clone()));
                },
            }
        } else if str_eq(nm.as_str(), "configure") || str_eq(nm.as_str(), "build") || str_eq(
            nm.as_str(),
            "no-build",
        ) || str_eq(nm.as_str(), "cmake") || str_eq(nm.as_str(), "meson") {
            match decode_build_item(it) {
                Ok(b) => {
                    build_section.push(b);
                },
                Err(e) => {
                    return Err(e);
                },
            }
        } else {
            return Err(BundleError::UnknownNode(nm.clone()));
        }
        i += 1;
    }
    proof {
        assert(items@.take(items@.len() as int) =~= items@);
    }
    let name = match name_o {
        Some(n) => n,
        None => {
            return Err(BundleError::MissingNode(String::from_str("name")));
        },
    };
    let project_name = match project_name_o {
        Some(n) => n,
        None => {
            return Err(BundleError::MissingNode(String::from_str("project-name")));
        },
    };
    Ok(
        Package {
            name,
            project_name,
            classification,
            maintainers,
            summary,
            license_file,
            license,
            prefix,
            version,
            revision,
            project_url,
            seperate_build_dir,
            sources,
            dependencies,
            build_section,
        },
    )
}

proof fn lemma_leaf_determines_node(l: Leaf, a: SourceNode, b: SourceNode)
    requires
        source_node_from_leaf(l, a),
        source_node_from_leaf(l, b),
    ensures
        crate::bundle::node_eqv(a, b),
{
}

proof fn lemma_branch_determines_section(b: Branch, s1: SourceSection, s2: SourceSection)
    requires
        section_from_branch(b, s1),
        section_from_branch(b, s2),
    ensures
        crate::bundle::section_eqv(s1, s2),
{
    assert forall|i: int| 0 <= i < s1.sources@.len() implies crate::bundle::node_eqv(
        #[trigger] s1.sources@[i],
        s2.sources@[i],
    ) by {
        lemma_leaf_determines_node(b.children@[i], s1.sources@[i], s2.sources@[i]);
    }
}

proof fn lemma_item_determines_build(it: PkgItem, b1: BuildSection, b2: BuildSection)
    requires
        build_from_item(it, b1),
        build_from_item(it, b2),
    ensures
        crate::bundle::build_eqv(b1, b2),
{
}

/// The round trip of the document model: a document pins the package
/// it describes down to its content, so writing a package out and
/// reading it back yields the same package.
pub proof fn lemma_document_roundtrip(items: Seq<PkgItem>, p: Package, q: Package)
    requires
        pkg_from_doc(items, p),
        pkg_from_doc(items, q),
    ensures
        crate::bundle::pkg_eqv(p, q),
{
    assert forall|i: int| 0 <= i < p.sources@.len() implies crate::bundle::section_eqv(
        #[trigger] p.sources@[i],
        q.sources@[i],
    ) by {
        lemma_branch_determines_section(
            source_items(items)[i]->Branch_0,
            p.sources@[i],
            q.sources@[i],
        );
    }
    assert forall|i: int| 0 <= i < p.build_section@.len() implies crate::bundle::build_eqv(
        #[trigger] p.build_section@[i],
        q.build_section@[i],
    ) by {
        lemma_item_determines_build(build_items(items)[i], p.build_section@[i], q.build_section@[i]);
    }
}

// ---------------------------------------------------------------
// Gate documents
// ---------------------------------------------------------------
/// Every node name of a gate document is distinct from every other.
proof fn lemma_gate_names_distinct()
    ensures
        "name"@ != "version"@,
        "name"@ != "branch"@,
        "name"@ != "publisher"@,
        "name"@ != "distribution"@,
        "name"@ != "transform"@,
        "name"@ != "package"@,
        "version"@ != "branch"@,
        "version"@ != "publisher"@,
        "version"@ != "distribution"@,
        "version"@ != "transform"@,
        "version"@ != "package"@,
        "branch"@ != "publisher"@,
        "branch"@ != "distribution"@,
        "branch"@ != "transform"@,
        "branch"@ != "package"@,
        "publisher"@ != "distribution"@,
        "publisher"@ != "transform"@,
        "publisher"@ != "package"@,
        "distribution"@ != "transform"@,
        "distribution"@ != "package"@,
        "transform"@ != "package"@,
{
    reveal_strlit("name");
    reveal_strlit("version");
    reveal_strlit("branch");
    reveal_strlit("publisher");
    reveal_strlit("distribution");
    reveal_strlit("transform");
    reveal_strlit("package");
    assert("name"@.len() == 4 && "version"@.len() == 7 && "branch"@.len() == 6 && "publisher"@.len() == 9 && "distribution"@.len() == 12 && "transform"@.len() == 9 && "package"@.len() == 7);
    assert("version"@[0] == 'v' && "package"@[0] == 'p');
    assert("version"@ != "package"@);
    assert("publisher"@[0] == 'p' && "transform"@[0] == 't');
    assert("publisher"@ != "transform"@);
}

/// The name of a top-level gate node; an embedded stub counts as a
/// `package` node.
pub open spec fn gate_item_name(it: GateItem) -> Seq<char> {
    match it {
        GateItem::Leaf(l) => l.name@,
        GateItem::Branch(b) => b.name@,
        GateItem::Pkg(_) => "package"@,
    }
}

/// The rightmost top-level gate node with the given name.
pub open spec fn last_gnamed(items: Seq<GateItem>, name: Seq<char>) -> Option<GateItem>
    decreases items.len(),
{
    if items.len() == 0 {
        None
    } else if gate_item_name(items.last()) == name {
        Some(items.last())
    } else {
        last_gnamed(items.drop_last(), name)
    }
}

/// The string argument of the winning gate scalar with this name.
pub open spec fn gscalar_of(items: Seq<GateItem>, name: Seq<char>) -> Option<Seq<char>> {
    match last_gnamed(items, name) {
        Some(it) => Some(val_str(it->Leaf_0.args@[0])),
        None => None,
    }
}

pub open spec fn transform_gitems(items: Seq<GateItem>) -> Seq<GateItem> {
    items.filter(|it: GateItem| gate_item_name(it) == "transform"@)
}

pub open spec fn package_gitems(items: Seq<GateItem>) -> Seq<GateItem> {
    items.filter(|it: GateItem| gate_item_name(it) == "package"@)
}

pub open spec fn transform_leaf_ok(l: Leaf) -> bool {
    &&& forall|i: int| 0 <= i < l.args@.len() ==> (#[trigger] l.args@[i]) is Str
    &&& forall|i: int|
        0 <= i < l.props@.len() ==> (#[trigger] l.props@[i]).key@ == "include"@ && l.props@[i].val
            is Str
}

pub open spec fn transform_from_leaf(l: Leaf, t: crate::gate::Transform) -> bool {
    &&& t.actions@.len() == l.args@.len()
    &&& forall|i: int| 0 <= i < l.args@.len() ==> (#[trigger] t.actions@[i])@ == val_str(l.args@[i])
    &&& t.include_prop.deep_view() == prop_last_str(l.props@, "include"@)
}

pub open spec fn dist_branch_ok(b: Branch) -> bool {
    &&& b.args@.len() == 0
    &&& forall|i: int|
        0 <= i < b.children@.len() ==> (#[trigger] b.children@[i]).name@ == "type"@
            && scalar_leaf_ok(b.children@[i])
    &&& match child_scalar_of(b.children@, "type"@) {
        Some(s) => crate::gate::dist_type_of(s) is Some,
        None => true,
    }
}

pub open spec fn dist_from_branch(b: Branch, d: crate::gate::Distribution) -> bool {
    match child_scalar_of(b.children@, "type"@) {
        Some(s) => crate::gate::dist_type_of(s) == Some(d.distribution_type),
        None => d.distribution_type == crate::gate::DistributionType::IPS,
    }
}

pub open spec fn gate_item_ok(it: GateItem) -> bool {
    let n = gate_item_name(it);
    if n == "name"@ || n == "version"@ || n == "branch"@ || n == "publisher"@ {
        it is Leaf && scalar_leaf_ok(it->Leaf_0)
    } else if n == "distribution"@ {
        it is Branch && dist_branch_ok(it->Branch_0)
    } else if n == "transform"@ {
        it is Leaf && transform_leaf_ok(it->Leaf_0)
    } else if n == "package"@ {
        it is Pkg && pkg_wf_doc(it->Pkg_0@)
    } else {
        false
    }
}

/// A well-formed gate document: every node known and shaped right,
/// with the four required scalars present.
pub open spec fn gate_wf_doc(items: Seq<GateItem>) -> bool {
    &&& forall|i: int| 0 <= i < items.len() ==> gate_item_ok(#[trigger] items[i])
    &&& last_gnamed(items, "name"@) is Some
    &&& last_gnamed(items, "version"@) is Some
    &&& last_gnamed(items, "branch"@) is Some
    &&& last_gnamed(items, "publisher"@) is Some
}

/// What gate a document describes.
pub open spec fn gate_from_doc(items: Seq<GateItem>, g: crate::gate::Gate) -> bool {
    &&& Some(g.name@) == gscalar_of(items, "name"@)
    &&& Some(g.version@) == gscalar_of(items, "version"@)
    &&& Some(g.branch@) == gscalar_of(items, "branch"@)
    &&& Some(g.publisher@) == gscalar_of(items, "publisher"@)
    &&& match last_gnamed(items, "distribution"@) {
        Some(it) => g.distribution matches Some(d) && dist_from_branch(it->Branch_0, d),
        None => g.distribution is None,
    }
    &&& g.default_transforms@.len() == transform_gitems(items).len()
    &&& forall|i: int|
        0 <= i < g.default_transforms@.len() ==> transform_from_leaf(
            transform_gitems(items)[i]->Leaf_0,
            #[trigger] g.default_transforms@[i],
        )
    &&& g.packages@.len() == package_gitems(items).len()
    &&& forall|i: int|
        0 <= i < g.packages@.len() ==> pkg_from_doc(
            package_gitems(items)[i]->Pkg_0@,
            #[trigger] g.packages@[i],
        )
}

impl crate::gate::Transform {
    /// This transform as a document leaf.
    pub fn to_node(&self) -> (r: Leaf)
        ensures
            r.name@ == "transform"@,
            transform_leaf_ok(r),
            transform_from_leaf(r, *self),
    {
        let mut args: Vec<Value> = Vec::new();
        let mut i: usize = 0;
        while i < self.actions.len()
            invariant
                i <= self.actions@.len(),
                args@.len() == i,
                forall|j: int| 0 <= j < i ==> (#[trigger] args@[j]) is Str,
                forall|j: int| 0 <= j < i ==> val_str(#[trigger] args@[j]) == self.actions@[j]@,
            decreases self.actions@.len() - i,
        {
            args.push(Value::Str(self.actions[i].clone()));
            i += 1;
        }
        let mut props: Vec<Prop> = Vec::new();
        push_str_prop(&mut props, "include", &self.include_prop);
        Leaf { name: String::from_str("transform"), args, props }
    }
}

/// Reads a transform back from a leaf.
pub fn decode_transform(l: &Leaf) -> (r: Result<crate::gate::Transform, crate::gate::GateError>)
    ensures
        r is Ok <==> transform_leaf_ok(*l),
        r matches Ok(t) ==> transform_from_leaf(*l, t),
{
    let mut actions: Vec<String> = Vec::new();
    let mut i: usize = 0;
    while i < l.args.len()
        invariant
            i <= l.args@.len(),
            actions@.len() == i,
            forall|j: int| 0 <= j < i ==> (#[trigger] l.args@[j]) is Str,
            forall|j: int| 0 <= j < i ==> (#[trigger] actions@[j])@ == val_str(l.args@[j]),
        decreases l.args@.len() - i,
    {
        match value_str_ref(&l.args[i]) {
            Some(s) => {
                actions.push(s.clone());
            },
            None => {
                return Err(crate::gate::GateError::WrongValueType(String::from_str("transform")));
            },
        }
        i += 1;
    }
    let mut include_prop: Option<String> = None;
    let mut k: usize = 0;
    while k < l.props.len()
        invariant
            k <= l.props@.len(),
            forall|j: int|
                0 <= j < k ==> (#[trigger] l.props@[j]).key@ == "include"@ && l.props@[j].val
                    is Str,
            include_prop.deep_view() == prop_last_str(l.props@.take(k as int), "include"@),
        decreases l.props@.len() - k,
    {
        let p = &l.props[k];
        proof {
            assert(l.props@.take(k + 1).drop_last() =~= l.props@.take(k as int));
        }
        if str_eq(p.key.as_str(), "include") {
            match value_str_ref(&p.val) {
                Some(s) => {
                    include_prop = Some(s.clone());
                },
                None => {
                    return Err(crate::gate::GateError::WrongValueType(p.key.clone()));
                },
            }
        } else {
            return Err(crate::gate::GateError::UnknownProperty(p.key.clone()));
        }
        k += 1;
    }
    proof {
        assert(l.props@.take(l.props@.len() as int) =~= l.props@);
    }
    Ok(crate::gate::Transform { actions, include_prop })
}

impl crate::gate::Distribution {
    /// This distribution declaration as a document branch.
    pub fn to_node(&self) -> (r: Branch)
        ensures
            r.name@ == "distribution"@,
            dist_branch_ok(r),
            dist_from_branch(r, *self),
    {
        proof {
            reveal_strlit("tarball");
            reveal_strlit("tar");
            reveal_strlit("ips");
            reveal_strlit("IPS");
            assert("tarball"@.len() == 7 && "tar"@.len() == 3 && "ips"@.len() == 3
                && "IPS"@.len() == 3);
            assert("tar"@[0] == 't' && "ips"@[0] == 'i' && "IPS"@[0] == 'I');
            assert("tar"@ != "ips"@ && "tar"@ != "IPS"@);
        }
        let type_str = self.distribution_type.to_string();
        let mut children: Vec<Leaf> = Vec::new();
        let l = scalar_leaf("type", &type_str);
        children.push(l);
        proof {
            assert(last_child(children@, "type"@) == Some(l));
        }
        Branch { name: String::from_str("distribution"), args: Vec::new(), children }
    }
}

/// Reads a distribution declaration back from a branch.
pub fn decode_distribution(b: &Branch) -> (r: Result<crate::gate::Distribution, crate::gate::GateError>)
    ensures
        r is Ok <==> dist_branch_ok(*b),
        r matches Ok(d) ==> dist_from_branch(*b, d),
{
    if b.args.len() != 0 {
        return Err(crate::gate::GateError::WrongArgumentCount(String::from_str("distribution")));
    }
    let mut type_str: Option<String> = None;
    let mut i: usize = 0;
    while i < b.children.len()
        invariant
            i <= b.children@.len(),
            forall|j: int|
                0 <= j < i ==> (#[trigger] b.children@[j]).name@ == "type"@ && scalar_leaf_ok(
                    b.children@[j],
                ),
            type_str.deep_view() == child_scalar_of(b.children@.take(i as int), "type"@),
        decreases b.children@.len() - i,
    {
        let l = &b.children[i];
        proof {
            assert(b.children@.take(i + 1).drop_last() =~= b.children@.take(i as int));
        }
        if str_eq(l.name.as_str(), "type") {
            match decode_scalar_leaf(l, "type") {
                Ok(s) => {
                    type_str = Some(s);
                },
                Err(_) => {
                    return Err(crate::gate::GateError::WrongValueType(String::from_str("type")));
                },
            }
        } else {
            return Err(crate::gate::GateError::UnknownNode(l.name.clone()));
        }
        i += 1;
    }
    proof {
        assert(b.children@.take(b.children@.len() as int) =~= b.children@);
    }
    match type_str {
        Some(s) => match crate::gate::DistributionType::from_str(s.as_str()) {
            Ok(d) => Ok(crate::gate::Distribution { distribution_type: d }),
            Err(e) => Err(e),
        },
        None => Ok(
            crate::gate::Distribution { distribution_type: crate::gate::DistributionType::IPS },
        ),
    }
}


/// Appends a gate scalar node and says how every lookup moved.
fn push_gate_scalar(items: &mut Vec<GateItem>, name: &str, value: &String)
    requires
        name@ == "name"@ || name@ == "version"@ || name@ == "branch"@ || name@ == "publisher"@,
    ensures
        final(items)@.len() == old(items)@.len() + 1,
        forall|i: int| 0 <= i < old(items)@.len() ==> #[trigger] final(items)@[i] == old(
            items,
        )@[i],
        gate_item_ok(final(items)@.last()),
        gscalar_of(final(items)@, name@) == Some(value@),
        forall|nm: Seq<char>|
            nm != name@ ==> #[trigger] last_gnamed(final(items)@, nm) == last_gnamed(
                old(items)@,
                nm,
            ) && gscalar_of(final(items)@, nm) == gscalar_of(old(items)@, nm),
        transform_gitems(final(items)@) == transform_gitems(old(items)@),
        package_gitems(final(items)@) == package_gitems(old(items)@),
{
    proof {
        lemma_gate_names_distinct();
    }
    let l = scalar_leaf(name, value);
    let it = GateItem::Leaf(l);
    proof {
        assert(old(items)@.push(it).drop_last() =~= old(items)@);
        reveal_with_fuel(Seq::<GateItem>::filter, 2);
    }
    items.push(it);
}

/// Appends a transform node.
fn push_transform_item(items: &mut Vec<GateItem>, t: &crate::gate::Transform)
    ensures
        final(items)@.len() == old(items)@.len() + 1,
        forall|i: int| 0 <= i < old(items)@.len() ==> #[trigger] final(items)@[i] == old(
            items,
        )@[i],
        gate_item_ok(final(items)@.last()),
        forall|nm: Seq<char>|
            nm != "transform"@ ==> #[trigger] last_gnamed(final(items)@, nm) == last_gnamed(
                old(items)@,
                nm,
            ) && gscalar_of(final(items)@, nm) == gscalar_of(old(items)@, nm),
        transform_gitems(final(items)@) == transform_gitems(old(items)@).push(
            final(items)@.last(),
        ),
        final(items)@.last() is Leaf && transform_from_leaf(final(items)@.last()->Leaf_0, *t),
        package_gitems(final(items)@) == package_gitems(old(items)@),
{
    proof {
        lemma_gate_names_distinct();
    }
    let l = t.to_node();
    let it = GateItem::Leaf(l);
    proof {
        assert(old(items)@.push(it).drop_last() =~= old(items)@);
        reveal_with_fuel(Seq::<GateItem>::filter, 2);
    }
    items.push(it);
}

/// Appends an embedded package stub.
fn push_pkg_gitem(items: &mut Vec<GateItem>, p: &Package)
    requires
        p.build_section@.len() <= 1,
    ensures
        final(items)@.len() == old(items)@.len() + 1,
        forall|i: int| 0 <= i < old(items)@.len() ==> #[trigger] final(items)@[i] == old(
            items,
        )@[i],
        gate_item_ok(final(items)@.last()),
        forall|nm: Seq<char>|
            nm != "package"@ ==> #[trigger] last_gnamed(final(items)@, nm) == last_gnamed(
                old(items)@,
                nm,
            ) && gscalar_of(final(items)@, nm) == gscalar_of(old(items)@, nm),
        transform_gitems(final(items)@) == transform_gitems(old(items)@),
        package_gitems(final(items)@) == package_gitems(old(items)@).push(final(items)@.last()),
        final(items)@.last() is Pkg && pkg_from_doc(final(items)@.last()->Pkg_0@, *p),
{
    proof {
        lemma_gate_names_distinct();
    }
    let doc = p.to_document();
    let it = GateItem::Pkg(doc);
    proof {
        assert(old(items)@.push(it).drop_last() =~= old(items)@);
        reveal_with_fuel(Seq::<GateItem>::filter, 2);
    }
    items.push(it);
}

impl crate::gate::Gate {
    /// This gate written out as a document; reading it back yields
    /// the same gate (but for the on-disk path, which is not part of
    /// the document).
    #[verifier::rlimit(60)]
    pub fn to_document(&self) -> (r: Vec<GateItem>)
        requires
            forall|i: int|
                0 <= i < self.packages@.len() ==> (#[trigger] self.packages@[i]).build_section@.len()
                    <= 1,
        ensures
            gate_wf_doc(r@),
            gate_from_doc(r@, *self),
    {
        proof {
            lemma_gate_names_distinct();
        }
        let mut items: Vec<GateItem> = Vec::new();
        proof {
            reveal_with_fuel(Seq::<GateItem>::filter, 2);
            assert(transform_gitems(items@) =~= Seq::<GateItem>::empty());
            assert(package_gitems(items@) =~= Seq::<GateItem>::empty());
        }
        push_gate_scalar(&mut items, "name", &self.name);
        push_gate_scalar(&mut items, "version", &self.version);
        push_gate_scalar(&mut items, "branch", &self.branch);
        push_gate_scalar(&mut items, "publisher", &self.publisher);
        let mut i: usize = 0;
        while i < self.packages.len()
            invariant
                i <= self.packages@.len(),
                forall|j: int|
                    0 <= j < self.packages@.len() ==> (
                    #[trigger] self.packages@[j]).build_section@.len() <= 1,
                forall|j: int| 0 <= j < items@.len() ==> gate_item_ok(#[trigger] items@[j]),
                gscalar_of(items@, "name"@) == Some(self.name@),
                gscalar_of(items@, "version"@) == Some(self.version@),
                gscalar_of(items@, "branch"@) == Some(self.branch@),
                gscalar_of(items@, "publisher"@) == Some(self.publisher@),
                last_gnamed(items@, "distribution"@) is None,
                transform_gitems(items@).len() == 0,
                package_gitems(items@).len() == i,
                forall|j: int|
                    0 <= j < i ==> package_gitems(items@)[j] is Pkg && pkg_from_doc(
                        (#[trigger] package_gitems(items@)[j])->Pkg_0@,
                        self.packages@[j],
                    ),
            decreases self.packages@.len() - i,
        {
            proof {
                lemma_gate_names_distinct();
            }
            push_pkg_gitem(&mut items, &self.packages[i]);
            i += 1;
        }
        match &self.distribution {
            Some(d) => {
                let b = d.to_node();
                let it = GateItem::Branch(b);
                proof {
                    lemma_gate_names_distinct();
                    assert(items@.push(it).drop_last() =~= items@);
                    reveal_with_fuel(Seq::<GateItem>::filter, 2);
                }
                items.push(it);
                proof {
                    assert(last_gnamed(items@, "distribution"@) == Some(it));
                }
            },
            None => {},
        }
        let mut k: usize = 0;
        while k < self.default_transforms.len()
            invariant
                k <= self.default_transforms@.len(),
                forall|j: int| 0 <= j < items@.len() ==> gate_item_ok(#[trigger] items@[j]),
                gscalar_of(items@, "name"@) == Some(self.name@),
                gscalar_of(items@, "version"@) == Some(self.version@),
                gscalar_of(items@, "branch"@) == Some(self.branch@),
                gscalar_of(items@, "publisher"@) == Some(self.publisher@),
                match last_gnamed(items@, "distribution"@) {
                    Some(it) => self.distribution matches Some(d) && it is Branch
                        && dist_from_branch(it->Branch_0, d),
                    None => self.distribution is None,
                },
                transform_gitems(items@).len() == k,
                forall|j: int|
                    0 <= j < k ==> transform_gitems(items@)[j] is Leaf && transform_from_leaf(
                        (#[trigger] transform_gitems(items@)[j])->Leaf_0,
                        self.default_transforms@[j],
                    ),
                package_gitems(items@).len() == self.packages@.len(),
                forall|j: int|
                    0 <= j < self.packages@.len() ==> package_gitems(items@)[j] is Pkg
                        && pkg_from_doc(
                        (#[trigger] package_gitems(items@)[j])->Pkg_0@,
                        self.packages@[j],
                    ),
            decreases self.default_transforms@.len() - k,
        {
            proof {
                lemma_gate_names_distinct();
            }
            push_transform_item(&mut items, &self.default_transforms[k]);
            k += 1;
        }
        items
    }
}

/// The name of a top-level gate node.
fn gate_item_name_ref<'a>(it: &'a GateItem) -> (r: &'a str)
    ensures
        r@ == gate_item_name(*it),
{
    match it {
        GateItem::Leaf(l) => l.name.as_str(),
        GateItem::Branch(b) => b.name.as_str(),
        GateItem::Pkg(_) => "package",
    }
}

/// Reads a gate back from a document; the given path becomes the
/// gate's on-disk path.
#[verifier::rlimit(60)]
pub fn decode_gate(items: &Vec<GateItem>, path: &str) -> (r: Result<
    crate::gate::Gate,
    crate::gate::GateError,
>)
    ensures
        r is Ok <==> gate_wf_doc(items@),
        r matches Ok(g) ==> gate_from_doc(items@, g) && g.path@ == path@,
{
    proof {
        lemma_gate_names_distinct();
        reveal_with_fuel(Seq::<GateItem>::filter, 2);
        assert(transform_gitems(items@.take(0)) =~= Seq::<GateItem>::empty());
        assert(package_gitems(items@.take(0)) =~= Seq::<GateItem>::empty());
    }
    let mut name_o: Option<String> = None;
    let mut version_o: Option<String> = None;
    let mut branch_o: Option<String> = None;
    let mut publisher_o: Option<String> = None;
    let mut distribution: Option<crate::gate::Distribution> = None;
    let mut default_transforms: Vec<crate::gate::Transform> = Vec::new();
    let mut packages: Vec<Package> = Vec::new();
    let mut i: usize = 0;
    while i < items.len()
        invariant
            i <= items@.len(),
            forall|j: int| 0 <= j < i ==> gate_item_ok(#[trigger] items@[j]),
            name_o.deep_view() == gscalar_of(items@.take(i as int), "name"@),
            version_o.deep_view() == gscalar_of(items@.take(i as int), "version"@),
            branch_o.deep_view() == gscalar_of(items@.take(i as int), "branch"@),
            publisher_o.deep_view() == gscalar_of(items@.take(i as int), "publisher"@),
            match last_gnamed(items@.take(i as int), "distribution"@) {
                Some(it) => distribution matches Some(d) && it is Branch && dist_from_branch(
                    it->Branch_0,
                    d,
                ),
                None => distribution is None,
            },
            default_transforms@.len() == transform_gitems(items@.take(i as int)).len(),
            forall|j: int|
                0 <= j < default_transforms@.len() ==> transform_from_leaf(
                    transform_gitems(items@.take(i as int))[j]->Leaf_0,
                    #[trigger] default_transforms@[j],
                ),
            packages@.len() == package_gitems(items@.take(i as int)).len(),
            forall|j: int|
                0 <= j < packages@.len() ==> pkg_from_doc(
                    package_gitems(items@.take(i as int))[j]->Pkg_0@,
                    #[trigger] packages@[j],
                ),
        decreases items@.len() - i,
    {
        let it = &items[i];
        proof {
            lemma_gate_names_distinct();
            reveal_with_fuel(Seq::<GateItem>::filter, 2);
            assert(items@.take(i + 1).drop_last() =~= items@.take(i as int));
            assert(items@.take(i + 1).last() == items@[i as int]);
        }
        let nm = gate_item_name_ref(it);
        if str_eq(nm, "name") {
            match it {
                GateItem::Leaf(l) => match decode_scalar_leaf(l, "name") {
                    Ok(s) => {
                        name_o = Some(s);
                    },
                    Err(_) => {
                        return Err(crate::gate::GateError::WrongValueType(String::from_str(
                            "name",
                        )));
                    },
                },
                _ => {
                    return Err(crate::gate::GateError::WrongArgumentCount(String::from_str(
                        "name",
                    )));
                },
            }
        } else if str_eq(nm, "version") {
            match it {
                GateItem::Leaf(l) => match decode_scalar_leaf(l, "version") {
                    Ok(s) => {
                        version_o = Some(s);
                    },
                    Err(_) => {
                        return Err(crate::gate::GateError::WrongValueType(String::from_str(
                            "version",
                        )));
                    },
                },
                _ => {
                    return Err(crate::gate::GateError::WrongArgumentCount(String::from_str(
                        "version",
                    )));
                },
            }
        } else if str_eq(nm, "branch") {
            match it {
                GateItem::Leaf(l) => match decode_scalar_leaf(l, "branch") {
                    Ok(s) => {
                        branch_o = Some(s);
                    },
                    Err(_) => {
                        return Err(crate::gate::GateError::WrongValueType(String::from_str(
                            "branch",
                        )));
                    },
                },
                _ => {
                    return Err(crate::gate::GateError::WrongArgumentCount(String::from_str(
                        "branch",
                    )));
                },
            }
        } else if str_eq(nm, "publisher") {
            match it {
                GateItem::Leaf(l) => match decode_scalar_leaf(l, "publisher") {
                    Ok(s) => {
                        publisher_o = Some(s);
                    },
                    Err(_) => {
                        return Err(crate::gate::GateError::WrongValueType(String::from_str(
                            "publisher",
                        )));
                    },
                },
                _ => {
                    return Err(crate::gate::GateError::WrongArgumentCount(String::from_str(
                        "publisher",
                    )));
                },
            }
        } else if str_eq(nm, "distribution") {
            match it {
                GateItem::Branch(b) => match decode_distribution(b) {
                    Ok(d) => {
                        distribution = Some(d);
                    },
                    Err(e) => {
                        return Err(e);
                    },
                },
                _ => {
                    return Err(crate::gate::GateError::WrongArgumentCount(String::from_str(
                        "distribution",
                    )));
                },
            }
        } else if str_eq(nm, "transform") {
            match it {
                GateItem::Leaf(l) => match decode_transform(l) {
                    Ok(t) => {
                        default_transforms.push(t);
                    },
                    Err(e) => {
                        return Err(e);
                    },
                },
                _ => {
                    return Err(crate::gate::GateError::WrongArgumentCount(String::from_str(
                        "transform",
                    )));
                },
            }
        } else if str_eq(nm, "package") {
            match it {
                GateItem::Pkg(doc) => match decode_package(doc) {
                    Ok(p) => {
                        packages.push(p);
                    },
                    Err(e) => {
                        return Err(crate::gate::GateError::BadPackage(e));
                    },
                },
                _ => {
                    return Err(crate::gate::GateError::WrongArgumentCount(String::from_str(
                        "package",
                    )));
                },
            }
        } else {
            let nm_string = String::from_str(nm);
            return Err(crate::gate::GateError::UnknownNode(nm_string));
        }
        i += 1;
    }
    proof {
        assert(items@.take(items@.len() as int) =~= items@);
    }
    let name = match name_o {
        Some(n) => n,
        None => {
            return Err(crate::gate::GateError::MissingNode(String::from_str("name")));
        },
    };
    let version = match version_o {
        Some(n) => n,
        None => {
            return Err(crate::gate::GateError::MissingNode(String::from_str("version")));
        },
    };
    let branch = match branch_o {
        Some(n) => n,
        None => {
            return Err(crate::gate::GateError::MissingNode(String::from_str("branch")));
        },
    };
    let publisher = match publisher_o {
        Some(n) => n,
        None => {
            return Err(crate::gate::GateError::MissingNode(String::from_str("publisher")));
        },
    };
    Ok(
        crate::gate::Gate {
            path: String::from_str(path),
            name,
            version,
            branch,
            distribution,
            packages,
            default_transforms,
            publisher,
        },
    )
}


proof fn lemma_leaf_determines_transform(l: Leaf, t1: crate::gate::Transform, t2: crate::gate::Transform)
    requires
        transform_from_leaf(l, t1),
        transform_from_leaf(l, t2),
    ensures
        t1.actions@.len() == t2.actions@.len(),
        forall|i: int|
            0 <= i < t1.actions@.len() ==> (#[trigger] t1.actions@[i])@ == t2.actions@[i]@,
        t1.include_prop.deep_view() == t2.include_prop.deep_view(),
{
}

/// The round trip of gate documents: a document pins down which
/// gate it describes, so a gate written out and read back holds the
/// same content.
pub proof fn lemma_gate_document_roundtrip(
    items: Seq<GateItem>,
    g: crate::gate::Gate,
    h: crate::gate::Gate,
)
    requires
        gate_from_doc(items, g),
        gate_from_doc(items, h),
    ensures
        g.name@ == h.name@,
        g.version@ == h.version@,
        g.branch@ == h.branch@,
        g.publisher@ == h.publisher@,
        g.distribution == h.distribution,
        g.default_transforms@.len() == h.default_transforms@.len(),
        forall|i: int|
            0 <= i < g.default_transforms@.len() ==> crate::gate::transform_text(
                #[trigger] g.default_transforms@[i],
            ) == crate::gate::transform_text(h.default_transforms@[i]),
        g.packages@.len() == h.packages@.len(),
        forall|i: int|
            0 <= i < g.packages@.len() ==> crate::bundle::pkg_eqv(
                #[trigger] g.packages@[i],
                h.packages@[i],
            ),
{
    assert forall|i: int|
        0 <= i < g.default_transforms@.len() implies crate::gate::transform_text(
        #[trigger] g.default_transforms@[i],
    ) == crate::gate::transform_text(h.default_transforms@[i]) by {
        lemma_leaf_determines_transform(
            transform_gitems(items)[i]->Leaf_0,
            g.default_transforms@[i],
            h.default_transforms@[i],
        );
        assert(crate::gate::transform_lines(g.default_transforms@[i]) =~~= crate::gate::transform_lines(
            h.default_transforms@[i],
        ));
    }
    assert forall|i: int| 0 <= i < g.packages@.len() implies crate::bundle::pkg_eqv(
        #[trigger] g.packages@[i],
        h.packages@[i],
    ) by {
        lemma_document_roundtrip(package_gitems(items)[i]->Pkg_0@, g.packages@[i], h.packages@[i]);
    }
}

} // verus!
