//! The IPS packaging path: rendering the manifest template, writing
//! a gate's transforms, and assembling the packaging toolchain's
//! invocations.  The unverified binary spawns the tools.

use vstd::prelude::*;
use vstd::string::StringExecFns;

use crate::bundle::{Bundle, SourceNode};
use crate::gate::Transform;
use crate::paths::spec_join;
use crate::gate::transform_text;
use crate::strutil::spec_join_sep;

verus! {

/// What can go wrong while assembling the packaging step.
#[derive(Debug, Clone, PartialEq)]
pub enum IpsError {
    /// A bundle field the manifest needs is absent.
    MissingRequiredField(String),
}

/// The values rendered into the manifest template.
#[derive(Debug, Clone, PartialEq)]
pub struct ManifestVars {
    pub name: String,
    pub version: String,
    pub build_version: String,
    pub branch_version: String,
    pub revision: String,
    pub summary: String,
    pub classification: String,
    pub project_url: String,
    pub source_url: String,
    pub license_file_name: String,
    pub license_name: String,
}

/// The canonical upstream URL of a source node: an archive's source
/// or a Git source's repository; other nodes have none.
pub fn get_source_url(src: &SourceNode) -> (r: String)
    ensures
        r@ == match *src {
            SourceNode::Archive(a) => a.src@,
            SourceNode::Git(g) => g.repository@,
            _ => Seq::<char>::empty(),
        },
{
    match src {
        SourceNode::Archive(a) => a.src.clone(),
        SourceNode::Git(g) => g.repository.clone(),
        _ => String::new(),
    }
}

/// Collects the manifest variables of a bundle built under a gate.
/// The summary, classification, project URL, license file and
/// license must be set and a first source must exist; the version
/// and revision fall back to their stock values.
pub fn manifest_vars(b: &Bundle, gate_version: &str, gate_branch: &str) -> (r: Result<
    ManifestVars,
    IpsError,
>)
    ensures
        r is Ok <==> {
            &&& b.package_document.summary is Some
            &&& b.package_document.classification is Some
            &&& b.package_document.project_url is Some
            &&& b.package_document.license_file is Some
            &&& b.package_document.license is Some
            &&& b.package_document.sources@.len() > 0
            &&& b.package_document.sources@[0].sources@.len() > 0
        },
        r matches Ok(v) ==> {
            &&& v.name@ == b.package_document.name@
            &&& v.version@ == (match b.package_document.version {
                Some(x) => x@,
                None => "0.5.11"@,
            })
            &&& v.build_version@ == gate_version@
            &&& v.branch_version@ == gate_branch@
            &&& v.revision@ == (match b.package_document.revision {
                Some(x) => x@,
                None => "1"@,
            })
            &&& v.summary@ == b.package_document.summary->0@
            &&& v.classification@ == b.package_document.classification->0@
            &&& v.project_url@ == b.package_document.project_url->0@
            &&& v.source_url@ == (match b.package_document.sources@[0].sources@[0] {
                SourceNode::Archive(a) => a.src@,
                SourceNode::Git(g) => g.repository@,
                _ => Seq::<char>::empty(),
            })
            &&& v.license_file_name@ == b.package_document.license_file->0@
            &&& v.license_name@ == b.package_document.license->0@
        },
{
    let summary = match &b.package_document.summary {
        Some(s) => s.clone(),
        None => {
            return Err(IpsError::MissingRequiredField(String::from_str("summary")));
        },
    };
    let classification = match &b.package_document.classification {
        Some(s) => s.clone(),
        None => {
            return Err(IpsError::MissingRequiredField(String::from_str("classification")));
        },
    };
    let project_url = match &b.package_document.project_url {
        Some(s) => s.clone(),
        None => {
            return Err(IpsError::MissingRequiredField(String::from_str("project_url")));
        },
    };
    let license_file_name = match &b.package_document.license_file {
        Some(s) => s.clone(),
        None => {
            return Err(IpsError::MissingRequiredField(String::from_str("license_file")));
        },
    };
    let license_name = match &b.package_document.license {
        Some(s) => s.clone(),
        None => {
            return Err(IpsError::MissingRequiredField(String::from_str("license")));
        },
    };
    if b.package_document.sources.len() == 0 {
        return Err(IpsError::MissingRequiredField(String::from_str("source")));
    }
    if b.package_document.sources[0].sources.len() == 0 {
        return Err(IpsError::MissingRequiredField(String::from_str("source")));
    }
    let source_url = get_source_url(&b.package_document.sources[0].sources[0]);
    let version = match &b.package_document.version {
        Some(v) => v.clone(),
        None => String::from_str("0.5.11"),
    };
    let revision = match &b.package_document.revision {
        Some(v) => v.clone(),
        None => String::from_str("1"),
    };
    Ok(
        ManifestVars {
            name: b.get_name(),
            version,
            build_version: String::from_str(gate_version),
            branch_version: String::from_str(gate_branch),
            revision,
            summary,
            classification,
            project_url,
            source_url,
            license_file_name,
            license_name,
        },
    )
}

/// The package identity line of the rendered manifest.
pub open spec fn spec_fmri_line(v: ManifestVars) -> Seq<char> {
    "set name=pkg.fmri value=pkg:/"@ + v.name@ + "@"@ + v.version@ + ","@ + v.build_version@
        + "-"@ + v.branch_version@ + "."@ + v.revision@
}

/// The whole rendered manifest: the identity, summary,
/// classification, upstream and source URLs, and the license line.
pub open spec fn spec_manifest(v: ManifestVars) -> Seq<char> {
    spec_fmri_line(v) + "\nset name=pkg.summary value=\""@ + v.summary@
        + "\"\nset name=info.classification value=\"org.opensolaris.category.2008:"@
        + v.classification@ + "\"\nset name=info.upstream-url value=\""@ + v.project_url@
        + "\"\nset name=info.source-url value=\""@ + v.source_url@ + "\"\n\nlicense "@
        + v.license_file_name@ + " license='"@ + v.license_name@ + "'\n"@
}

/// Renders the manifest template.
pub fn render_manifest(v: &ManifestVars) -> (r: String)
    ensures
        r@ == spec_manifest(*v),
{
    let mut s = String::from_str("set name=pkg.fmri value=pkg:/");
    s.append(v.name.as_str());
    s.append("@");
    s.append(v.version.as_str());
    s.append(",");
    s.append(v.build_version.as_str());
    s.append("-");
    s.append(v.branch_version.as_str());
    s.append(".");
    s.append(v.revision.as_str());
    s.append("\nset name=pkg.summary value=\"");
    s.append(v.summary.as_str());
    s.append("\"\nset name=info.classification value=\"org.opensolaris.category.2008:");
    s.append(v.classification.as_str());
    s.append("\"\nset name=info.upstream-url value=\"");
    s.append(v.project_url.as_str());
    s.append("\"\nset name=info.source-url value=\"");
    s.append(v.source_url.as_str());
    s.append("\"\n\nlicense ");
    s.append(v.license_file_name.as_str());
    s.append(" license='");
    s.append(v.license_name.as_str());
    s.append("'\n");
    s
}

/// The text of a gate's transform file: every transform's lines,
/// newline-joined, with a trailing newline.
pub fn transforms_text(transforms: &Vec<Transform>) -> (r: String)
    ensures
        r@ == spec_join_sep(
            transforms@.map_values(|t: Transform| transform_text(t)),
            seq!['\n'],
        ) + seq!['\n'],
{
    let mut parts: Vec<String> = Vec::new();
    let mut i: usize = 0;
    while i < transforms.len()
        invariant
            i <= transforms@.len(),
            parts@.len() == i,
            forall|j: int|
                0 <= j < i ==> (#[trigger] parts@[j])@ == transform_text(transforms@[j]),
        decreases transforms@.len() - i,
    {
        parts.push(transforms[i].to_string());
        i += 1;
    }
    let mut s = crate::strutil::join_strings(&parts, "\n");
    s.append("\n");
    proof {
        reveal_strlit("\n");
        assert("\n"@ =~= seq!['\n']);
        assert(parts@.map_values(|p: String| p@) =~= transforms@.map_values(
            |t: Transform| transform_text(t),
        ));
        assert(s@ =~= spec_join_sep(
            transforms@.map_values(|t: Transform| transform_text(t)),
            seq!['\n'],
        ) + seq!['\n']);
    }
    s
}

/// The file-list generation call: `pkgsend generate` over the
/// prototype tree.
pub fn pkgsend_generate_args(proto_dir: &str) -> (r: Vec<String>)
    ensures
        r@.len() == 2,
        r@[0]@ == "generate"@,
        r@[1]@ == proto_dir@,
{
    let mut args: Vec<String> = Vec::new();
    args.push(String::from_str("generate"));
    args.push(String::from_str(proto_dir));
    args
}

/// The mogrify call: the optional user include directory, the
/// rendered manifest and the file list, then a gate's transform
/// file when one was written, then the bundle's own mogrify
/// manifest when it has one.
pub fn mogrify_args(
    manifest_dir: &str,
    user_include_dir: &Option<String>,
    gate_transforms_file: &Option<String>,
    bundle_mog: &Option<String>,
) -> (r: Vec<String>)
    ensures
        ({
            let base: int = if user_include_dir is Some {
                2
            } else {
                0
            };
            &&& r@.len() == base + 2 + (if gate_transforms_file is Some {
                1int
            } else {
                0int
            }) + (if bundle_mog is Some {
                1int
            } else {
                0int
            })
            &&& (user_include_dir matches Some(d) ==> r@[0]@ == "-I"@ && r@[1]@ == d@)
            &&& r@[base]@ == spec_join(manifest_dir@, "generated.p5m"@)
            &&& r@[base + 1]@ == spec_join(manifest_dir@, "filelist.fmt"@)
            &&& (gate_transforms_file matches Some(f) ==> r@[base + 2]@ == f@)
            &&& (bundle_mog matches Some(m) ==> r@[r@.len() - 1]@ == m@)
        }),
{
    let mut args: Vec<String> = Vec::new();
    match user_include_dir {
        Some(d) => {
            args.push(String::from_str("-I"));
            args.push(d.clone());
        },
        None => {},
    }
    args.push(crate::paths::path_join(manifest_dir, "generated.p5m"));
    args.push(crate::paths::path_join(manifest_dir, "filelist.fmt"));
    match gate_transforms_file {
        Some(f) => {
            args.push(f.clone());
        },
        None => {},
    }
    match bundle_mog {
        Some(m) => {
            args.push(m.clone());
        },
        None => {},
    }
    args
}

/// The dependency generation call over the mogrified manifest.
pub fn pkgdepend_generate_args(proto_dir: &str, manifest_dir: &str) -> (r: Vec<String>)
    ensures
        r@.len() == 5,
        r@[0]@ == "generate"@,
        r@[1]@ == "-m"@,
        r@[2]@ == "-d"@,
        r@[3]@ == proto_dir@,
        r@[4]@ == spec_join(manifest_dir@, "mogrified.mog"@),
{
    let mut args: Vec<String> = Vec::new();
    args.push(String::from_str("generate"));
    args.push(String::from_str("-m"));
    args.push(String::from_str("-d"));
    args.push(String::from_str(proto_dir));
    args.push(crate::paths::path_join(manifest_dir, "mogrified.mog"));
    args
}

/// The dependency resolution call.
pub fn pkgdepend_resolve_args(manifest_dir: &str) -> (r: Vec<String>)
    ensures
        r@.len() == 3,
        r@[0]@ == "resolve"@,
        r@[1]@ == "-m"@,
        r@[2]@ == spec_join(manifest_dir@, "generated.dep"@),
{
    let mut args: Vec<String> = Vec::new();
    args.push(String::from_str("resolve"));
    args.push(String::from_str("-m"));
    args.push(crate::paths::path_join(manifest_dir, "generated.dep"));
    args
}

/// The lint call over the resolved manifest.
pub fn pkglint_args(manifest_dir: &str) -> (r: Vec<String>)
    ensures
        r@.len() == 1,
        r@[0]@ == spec_join(manifest_dir@, "generated.dep.res"@),
{
    let mut args: Vec<String> = Vec::new();
    args.push(crate::paths::path_join(manifest_dir, "generated.dep.res"));
    args
}

/// One repository-side action needed before publication.
#[derive(Debug, Clone, PartialEq)]
pub enum RepoAction {
    CreateRepo(Vec<String>),
    AddPublisher(Vec<String>),
}

/// What must run so that the repository exists and carries the
/// publisher: nothing that is already there is touched.
pub fn ensure_repo_actions(
    repo_dir: &str,
    publisher: &str,
    has_repo: bool,
    has_publisher: bool,
) -> (r: Vec<RepoAction>)
    ensures
        r@.len() == (if has_repo {
            0int
        } else {
            1int
        }) + (if has_publisher {
            0int
        } else {
            1int
        }),
        !has_repo ==> (r@[0] matches RepoAction::CreateRepo(a) && a@.len() == 2 && a@[0]@
            == "create"@ && a@[1]@ == repo_dir@),
        !has_publisher ==> (r@[r@.len() - 1] matches RepoAction::AddPublisher(a) && a@.len() == 4
            && a@[0]@ == "add-publisher"@ && a@[1]@ == "-s"@ && a@[2]@ == repo_dir@ && a@[3]@
            == publisher@),
{
    let mut actions: Vec<RepoAction> = Vec::new();
    if !has_repo {
        let mut a: Vec<String> = Vec::new();
        a.push(String::from_str("create"));
        a.push(String::from_str(repo_dir));
        actions.push(RepoAction::CreateRepo(a));
    }
    if !has_publisher {
        let mut a: Vec<String> = Vec::new();
        a.push(String::from_str("add-publisher"));
        a.push(String::from_str("-s"));
        a.push(String::from_str(repo_dir));
        a.push(String::from_str(publisher));
        actions.push(RepoAction::AddPublisher(a));
    }
    actions
}

/// The publication call: the prototype tree and the unpack tree as
/// sources, into the repository, with the resolved manifest.
pub fn publish_args(proto_dir: &str, unpack_path: &str, repo_dir: &str, manifest_dir: &str) -> (r:
    Vec<String>)
    ensures
        r@.len() == 8,
        r@[0]@ == "publish"@,
        r@[1]@ == "-d"@,
        r@[2]@ == proto_dir@,
        r@[3]@ == "-d"@,
        r@[4]@ == unpack_path@,
        r@[5]@ == "-s"@,
        r@[6]@ == repo_dir@,
        r@[7]@ == spec_join(manifest_dir@, "generated.dep.res"@),
{
    let mut args: Vec<String> = Vec::new();
    args.push(String::from_str("publish"));
    args.push(String::from_str("-d"));
    args.push(String::from_str(proto_dir));
    args.push(String::from_str("-d"));
    args.push(String::from_str(unpack_path));
    args.push(String::from_str("-s"));
    args.push(String::from_str(repo_dir));
    args.push(crate::paths::path_join(manifest_dir, "generated.dep.res"));
    args
}

} // verus!
