//! The per-package document model: the `Package` and its sections,
//! its gate-merge semantics, and the builder used to assemble a fresh
//! package from the command line.

use vstd::prelude::*;
use vstd::string::StringExecFns;

use crate::paths::after_last_slash;
use crate::paths::before_first_dot;

verus! {

/// Everything that can go wrong inside the document model: schema
/// violations while reading a document tree, a failed gate merge, and
/// a builder missing a required field.
#[derive(Debug, Clone, PartialEq)]
pub enum BundleError {
    /// A top-level or child node name the grammar does not know.
    UnknownNode(String),
    /// A property key the grammar does not know for this node.
    UnknownProperty(String),
    /// A node carries the wrong number of arguments.
    WrongArgumentCount(String),
    /// An argument or property holds a scalar of the wrong type.
    WrongValueType(String),
    /// A required node is absent.
    MissingNode(String),
    /// The `kind` property of a dependency is not a known kind.
    UnknownDependencyKind(String),
    /// A build node name that is not a known build type.
    UnknownBuildType(String),
    /// No entry in the merge table for this pairing of build sections.
    NonMergableBuildSections(String, String),
    /// A builder field that must be set before `build` was not.
    UninitializedField(String),
}

/// A dependency declaration of a package.
#[derive(Debug, Clone, PartialEq)]
pub struct Dependency {
    pub name: String,
    pub dev: bool,
    pub kind: Option<DependencyKind>,
}

/// How a dependency binds: a hard requirement, an incorporation, or an
/// optional hint.
#[derive(Debug, Clone, Copy, PartialEq, Eq, Structural)]
pub enum DependencyKind {
    Require,
    Incorporate,
    Optional,
}

/// An upstream archive to download, carrying its expected digests.
#[derive(Debug, Clone, PartialEq)]
pub struct ArchiveSource {
    pub src: String,
    pub sha512: Option<String>,
    pub sha256: Option<String>,
    pub signature_url_extension: Option<String>,
    pub signature_url: Option<String>,
}

/// A Git repository to fetch; the commit is selected by tag when one
/// is set, else by branch, else the remote head.
#[derive(Debug, Clone, PartialEq)]
pub struct GitSource {
    pub repository: String,
    pub branch: Option<String>,
    pub tag: Option<String>,
    pub archive: Option<bool>,
    pub must_stay_as_repo: Option<bool>,
    /// Where to unpack; the first Git source of a section may leave it
    /// unset, every later one must name its own directory.
    pub directory: Option<String>,
}

/// A single file copied from the bundle into the build tree.
#[derive(Debug, Clone, PartialEq)]
pub struct FileSource {
    pub bundle_path: String,
    pub target_path: Option<String>,
}

/// A directory tree copied from the bundle into the build tree.
#[derive(Debug, Clone, PartialEq)]
pub struct DirectorySource {
    pub bundle_path: String,
    pub target_path: Option<String>,
}

/// A patch applied inside the unpack directory with a path-strip level.
#[derive(Debug, Clone, PartialEq)]
pub struct PatchSource {
    pub bundle_path: String,
    pub drop_directories: Option<i64>,
}

/// A directory overlaid over the unpack root, overwriting files.
#[derive(Debug, Clone, PartialEq)]
pub struct OverlaySource {
    pub bundle_path: String,
}

/// One source node of a source section.
#[derive(Debug, Clone, PartialEq)]
pub enum SourceNode {
    Archive(ArchiveSource),
    Git(GitSource),
    File(FileSource),
    Directory(DirectorySource),
    Patch(PatchSource),
    Overlay(OverlaySource),
}

/// A named group of source nodes that unpacks into one target.
#[derive(Debug, Clone, PartialEq)]
pub struct SourceSection {
    pub name: Option<String>,
    pub sources: Vec<SourceNode>,
}

/// A `--option` handed to the configure script.
#[derive(Debug, Clone, PartialEq)]
pub struct BuildOptionNode {
    pub option: String,
}

/// A compiler or environment flag; without a name it feeds the four
/// standard flag variables.
#[derive(Debug, Clone, PartialEq)]
pub struct BuildFlagNode {
    pub flag: String,
    pub flag_name: Option<String>,
}

/// A build script of a script build section, optionally naming the
/// directory it stages its prototype into.
#[derive(Debug, Clone, PartialEq)]
pub struct ScriptNode {
    pub name: String,
    pub prototype_dir: Option<String>,
}

/// A copy directive of a script build section.
#[derive(Debug, Clone, PartialEq)]
pub struct InstallDirectiveNode {
    pub src: String,
    pub target: String,
    pub name: String,
    pub pattern: Option<String>,
    pub fmatch: Option<String>,
}

/// The configure-driven build: options, flags and tool overrides.
#[derive(Debug, Clone, PartialEq)]
pub struct ConfigureBuildSection {
    pub options: Vec<BuildOptionNode>,
    pub flags: Vec<BuildFlagNode>,
    pub compiler: Option<String>,
    pub linker: Option<String>,
}

/// The script-driven build: scripts to run and copies to make.
#[derive(Debug, Clone, PartialEq)]
pub struct ScriptBuildSection {
    pub scripts: Vec<ScriptNode>,
    pub install_directives: Vec<InstallDirectiveNode>,
}

/// How a package is built.
#[derive(Debug, Clone, PartialEq)]
pub enum BuildSection {
    Configure(ConfigureBuildSection),
    CMake,
    Meson,
    Build(ScriptBuildSection),
    NoBuild,
}

/// A node of a gate file that names one further document to read.
#[derive(Debug, Clone, PartialEq)]
pub struct FileNode {
    pub include_file: String,
}

/// The parsed package document.
#[derive(Debug, Clone, PartialEq)]
pub struct Package {
    pub name: String,
    pub project_name: String,
    pub classification: Option<String>,
    pub maintainers: Vec<String>,
    pub summary: Option<String>,
    pub license_file: Option<String>,
    pub license: Option<String>,
    pub prefix: Option<String>,
    pub version: Option<String>,
    pub revision: Option<String>,
    pub project_url: Option<String>,
    pub seperate_build_dir: bool,
    pub sources: Vec<SourceSection>,
    pub dependencies: Vec<Dependency>,
    pub build_section: Vec<BuildSection>,
}

// Equivalence predicates: two values hold the same document, compared
// by character content rather than by allocation.

pub open spec fn dep_eqv(a: Dependency, b: Dependency) -> bool {
    &&& a.name@ == b.name@
    &&& a.dev == b.dev
    &&& a.kind == b.kind
}

pub open spec fn archive_eqv(a: ArchiveSource, b: ArchiveSource) -> bool {
    &&& a.src@ == b.src@
    &&& a.sha512.deep_view() == b.sha512.deep_view()
    &&& a.sha256.deep_view() == b.sha256.deep_view()
    &&& a.signature_url_extension.deep_view() == b.signature_url_extension.deep_view()
    &&& a.signature_url.deep_view() == b.signature_url.deep_view()
}

pub open spec fn git_eqv(a: GitSource, b: GitSource) -> bool {
    &&& a.repository@ == b.repository@
    &&& a.branch.deep_view() == b.branch.deep_view()
    &&& a.tag.deep_view() == b.tag.deep_view()
    &&& a.archive == b.archive
    &&& a.must_stay_as_repo == b.must_stay_as_repo
    &&& a.directory.deep_view() == b.directory.deep_view()
}

pub open spec fn file_eqv(a: FileSource, b: FileSource) -> bool {
    &&& a.bundle_path@ == b.bundle_path@
    &&& a.target_path.deep_view() == b.target_path.deep_view()
}

pub open spec fn dir_eqv(a: DirectorySource, b: DirectorySource) -> bool {
    &&& a.bundle_path@ == b.bundle_path@
    &&& a.target_path.deep_view() == b.target_path.deep_view()
}

pub open spec fn patch_eqv(a: PatchSource, b: PatchSource) -> bool {
    &&& a.bundle_path@ == b.bundle_path@
    &&& a.drop_directories == b.drop_directories
}

pub open spec fn overlay_eqv(a: OverlaySource, b: OverlaySource) -> bool {
    a.bundle_path@ == b.bundle_path@
}

pub open spec fn node_eqv(a: SourceNode, b: SourceNode) -> bool {
    match (a, b) {
        (SourceNode::Archive(x), SourceNode::Archive(y)) => archive_eqv(x, y),
        (SourceNode::Git(x), SourceNode::Git(y)) => git_eqv(x, y),
        (SourceNode::File(x), SourceNode::File(y)) => file_eqv(x, y),
        (SourceNode::Directory(x), SourceNode::Directory(y)) => dir_eqv(x, y),
        (SourceNode::Patch(x), SourceNode::Patch(y)) => patch_eqv(x, y),
        (SourceNode::Overlay(x), SourceNode::Overlay(y)) => overlay_eqv(x, y),
        _ => false,
    }
}

pub open spec fn nodes_eqv(a: Seq<SourceNode>, b: Seq<SourceNode>) -> bool {
    &&& a.len() == b.len()
    &&& forall|i: int| 0 <= i < a.len() ==> node_eqv(#[trigger] a[i], b[i])
}

pub open spec fn section_eqv(a: SourceSection, b: SourceSection) -> bool {
    &&& a.name.deep_view() == b.name.deep_view()
    &&& nodes_eqv(a.sources@, b.sources@)
}

pub open spec fn sections_eqv(a: Seq<SourceSection>, b: Seq<SourceSection>) -> bool {
    &&& a.len() == b.len()
    &&& forall|i: int| 0 <= i < a.len() ==> section_eqv(#[trigger] a[i], b[i])
}

pub open spec fn option_node_eqv(a: BuildOptionNode, b: BuildOptionNode) -> bool {
    a.option@ == b.option@
}

pub open spec fn flag_eqv(a: BuildFlagNode, b: BuildFlagNode) -> bool {
    &&& a.flag@ == b.flag@
    &&& a.flag_name.deep_view() == b.flag_name.deep_view()
}

pub open spec fn script_eqv(a: ScriptNode, b: ScriptNode) -> bool {
    &&& a.name@ == b.name@
    &&& a.prototype_dir.deep_view() == b.prototype_dir.deep_view()
}

pub open spec fn install_eqv(a: InstallDirectiveNode, b: InstallDirectiveNode) -> bool {
    &&& a.src@ == b.src@
    &&& a.target@ == b.target@
    &&& a.name@ == b.name@
    &&& a.pattern.deep_view() == b.pattern.deep_view()
    &&& a.fmatch.deep_view() == b.fmatch.deep_view()
}

pub open spec fn configure_eqv(a: ConfigureBuildSection, b: ConfigureBuildSection) -> bool {
    &&& a.options.len() == b.options.len()
    &&& forall|i: int| 0 <= i < a.options.len() ==> option_node_eqv(
        #[trigger] a.options@[i],
        b.options@[i],
    )
    &&& a.flags.len() == b.flags.len()
    &&& forall|i: int| 0 <= i < a.flags.len() ==> flag_eqv(#[trigger] a.flags@[i], b.flags@[i])
    &&& a.compiler.deep_view() == b.compiler.deep_view()
    &&& a.linker.deep_view() == b.linker.deep_view()
}

pub open spec fn scriptsec_eqv(a: ScriptBuildSection, b: ScriptBuildSection) -> bool {
    &&& a.scripts.len() == b.scripts.len()
    &&& forall|i: int| 0 <= i < a.scripts.len() ==> script_eqv(
        #[trigger] a.scripts@[i],
        b.scripts@[i],
    )
    &&& a.install_directives.len() == b.install_directives.len()
    &&& forall|i: int| 0 <= i < a.install_directives.len() ==> install_eqv(
        #[trigger] a.install_directives@[i],
        b.install_directives@[i],
    )
}

pub open spec fn build_eqv(a: BuildSection, b: BuildSection) -> bool {
    match (a, b) {
        (BuildSection::Configure(x), BuildSection::Configure(y)) => configure_eqv(x, y),
        (BuildSection::CMake, BuildSection::CMake) => true,
        (BuildSection::Meson, BuildSection::Meson) => true,
        (BuildSection::Build(x), BuildSection::Build(y)) => scriptsec_eqv(x, y),
        (BuildSection::NoBuild, BuildSection::NoBuild) => true,
        _ => false,
    }
}

pub open spec fn builds_eqv(a: Seq<BuildSection>, b: Seq<BuildSection>) -> bool {
    &&& a.len() == b.len()
    &&& forall|i: int| 0 <= i < a.len() ==> build_eqv(#[trigger] a[i], b[i])
}

pub open spec fn deps_eqv(a: Seq<Dependency>, b: Seq<Dependency>) -> bool {
    &&& a.len() == b.len()
    &&& forall|i: int| 0 <= i < a.len() ==> dep_eqv(#[trigger] a[i], b[i])
}

pub open spec fn strings_eqv(a: Seq<String>, b: Seq<String>) -> bool {
    &&& a.len() == b.len()
    &&& forall|i: int| 0 <= i < a.len() ==> (#[trigger] a[i])@ == b[i]@
}

pub open spec fn pkg_eqv(a: Package, b: Package) -> bool {
    &&& a.name@ == b.name@
    &&& a.project_name@ == b.project_name@
    &&& a.classification.deep_view() == b.classification.deep_view()
    &&& strings_eqv(a.maintainers@, b.maintainers@)
    &&& a.summary.deep_view() == b.summary.deep_view()
    &&& a.license_file.deep_view() == b.license_file.deep_view()
    &&& a.license.deep_view() == b.license.deep_view()
    &&& a.prefix.deep_view() == b.prefix.deep_view()
    &&& a.version.deep_view() == b.version.deep_view()
    &&& a.revision.deep_view() == b.revision.deep_view()
    &&& a.project_url.deep_view() == b.project_url.deep_view()
    &&& a.seperate_build_dir == b.seperate_build_dir
    &&& sections_eqv(a.sources@, b.sources@)
    &&& deps_eqv(a.dependencies@, b.dependencies@)
    &&& builds_eqv(a.build_section@, b.build_section@)
}

/// An optional override: the second operand wins where it is set.
pub open spec fn merged_opt(a: Option<Seq<char>>, b: Option<Seq<char>>) -> Option<Seq<char>> {
    if b is Some {
        b
    } else {
        a
    }
}

/// The build section a merge works against: the first one, or no
/// build when none is declared.
pub open spec fn self_build_of(p: Package) -> BuildSection {
    if p.build_section@.len() > 0 {
        p.build_section@[0]
    } else {
        BuildSection::NoBuild
    }
}

/// The pairings of build sections that the merge table accepts:
/// like kinds merge, a bare no-build yields to the other side, and
/// everything else is refused.
pub open spec fn build_mergeable(sb: BuildSection, ob: BuildSection) -> bool {
    match ob {
        BuildSection::NoBuild => true,
        BuildSection::Configure(_) => sb is Configure || sb is NoBuild,
        BuildSection::Build(_) => sb is Build || sb is NoBuild,
        BuildSection::CMake => sb is NoBuild,
        BuildSection::Meson => sb is NoBuild,
    }
}

pub open spec fn options_eqv(a: Seq<BuildOptionNode>, b: Seq<BuildOptionNode>) -> bool {
    &&& a.len() == b.len()
    &&& forall|i: int| 0 <= i < a.len() ==> option_node_eqv(#[trigger] a[i], b[i])
}

pub open spec fn flags_eqv(a: Seq<BuildFlagNode>, b: Seq<BuildFlagNode>) -> bool {
    &&& a.len() == b.len()
    &&& forall|i: int| 0 <= i < a.len() ==> flag_eqv(#[trigger] a[i], b[i])
}

pub open spec fn scripts_eqv(a: Seq<ScriptNode>, b: Seq<ScriptNode>) -> bool {
    &&& a.len() == b.len()
    &&& forall|i: int| 0 <= i < a.len() ==> script_eqv(#[trigger] a[i], b[i])
}

pub open spec fn installs_eqv(a: Seq<InstallDirectiveNode>, b: Seq<InstallDirectiveNode>) -> bool {
    &&& a.len() == b.len()
    &&& forall|i: int| 0 <= i < a.len() ==> install_eqv(#[trigger] a[i], b[i])
}

/// What a merged build section holds, for each accepted pairing:
/// like kinds union their contents (the other side winning on the
/// compiler and linker overrides), and no-build yields.
pub open spec fn merged_build(sb: BuildSection, ob: BuildSection, m: BuildSection) -> bool {
    match ob {
        BuildSection::NoBuild => build_eqv(m, sb),
        BuildSection::Configure(oc) => match sb {
            BuildSection::Configure(c) => {
                &&& m is Configure
                &&& options_eqv(m->Configure_0.options@, c.options@ + oc.options@)
                &&& flags_eqv(m->Configure_0.flags@, c.flags@ + oc.flags@)
                &&& m->Configure_0.compiler.deep_view() == merged_opt(
                    c.compiler.deep_view(),
                    oc.compiler.deep_view(),
                )
                &&& m->Configure_0.linker.deep_view() == merged_opt(
                    c.linker.deep_view(),
                    oc.linker.deep_view(),
                )
            },
            BuildSection::NoBuild => build_eqv(m, ob),
            _ => false,
        },
        BuildSection::Build(os) => match sb {
            BuildSection::Build(s) => {
                &&& m is Build
                &&& scripts_eqv(m->Build_0.scripts@, s.scripts@ + os.scripts@)
                &&& installs_eqv(
                    m->Build_0.install_directives@,
                    s.install_directives@ + os.install_directives@,
                )
            },
            BuildSection::NoBuild => build_eqv(m, ob),
            _ => false,
        },
        BuildSection::CMake => match sb {
            BuildSection::NoBuild => build_eqv(m, ob),
            _ => false,
        },
        BuildSection::Meson => match sb {
            BuildSection::NoBuild => build_eqv(m, ob),
            _ => false,
        },
    }
}

/// A merge succeeds exactly when the build sections are mergeable.
pub open spec fn pkg_mergeable(pre: Package, other: Package) -> bool {
    other.build_section@.len() == 0 || build_mergeable(
        self_build_of(pre),
        other.build_section@[0],
    )
}

/// What a successful merge of `other` into `pre` leaves behind: every
/// scalar of `other` that is set overwrites, sources and dependencies
/// are appended, maintainers stay, and the build sections merge by
/// the table.
pub open spec fn merge_rel(pre: Package, other: Package, post: Package) -> bool {
    &&& post.name@ == other.name@
    &&& post.project_name@ == pre.project_name@
    &&& post.classification.deep_view() == merged_opt(
        pre.classification.deep_view(),
        other.classification.deep_view(),
    )
    &&& post.summary.deep_view() == merged_opt(pre.summary.deep_view(), other.summary.deep_view())
    &&& post.license_file.deep_view() == merged_opt(
        pre.license_file.deep_view(),
        other.license_file.deep_view(),
    )
    &&& post.license.deep_view() == merged_opt(pre.license.deep_view(), other.license.deep_view())
    &&& post.prefix.deep_view() == merged_opt(pre.prefix.deep_view(), other.prefix.deep_view())
    &&& post.version.deep_view() == merged_opt(pre.version.deep_view(), other.version.deep_view())
    &&& post.revision.deep_view() == merged_opt(
        pre.revision.deep_view(),
        other.revision.deep_view(),
    )
    &&& post.project_url.deep_view() == merged_opt(
        pre.project_url.deep_view(),
        other.project_url.deep_view(),
    )
    &&& strings_eqv(post.maintainers@, pre.maintainers@)
    &&& post.seperate_build_dir == pre.seperate_build_dir
    &&& sections_eqv(post.sources@, pre.sources@ + other.sources@)
    &&& deps_eqv(post.dependencies@, pre.dependencies@ + other.dependencies@)
    &&& if other.build_section@.len() == 0 {
        builds_eqv(post.build_section@, pre.build_section@)
    } else {
        &&& post.build_section@.len() == 1
        &&& merged_build(self_build_of(pre), other.build_section@[0], post.build_section@[0])
    }
}

/// Merging a stub that sets nothing changes nothing: with the same
/// name, no scalar set, no sources, no dependencies and no build
/// section on the stub, the merged package holds the same document.
pub proof fn lemma_merge_identity(pre: Package, other: Package, post: Package)
    requires
        merge_rel(pre, other, post),
        other.name@ == pre.name@,
        other.classification is None,
        other.summary is None,
        other.license_file is None,
        other.license is None,
        other.prefix is None,
        other.version is None,
        other.revision is None,
        other.project_url is None,
        other.sources@.len() == 0,
        other.dependencies@.len() == 0,
        other.build_section@.len() == 0,
    ensures
        pkg_eqv(post, pre),
{
    assert(pre.sources@ + other.sources@ =~= pre.sources@);
    assert(pre.dependencies@ + other.dependencies@ =~= pre.dependencies@);
}

/// A copy of an optional string, holding the same characters.
pub fn copy_opt_string(v: &Option<String>) -> (r: Option<String>)
    ensures
        r.deep_view() == v.deep_view(),
{
    match v {
        Some(s) => Some(s.clone()),
        None => None,
    }
}

/// The directory-name prefix a Git checkout and its archive carry:
/// the last path segment of the repository without any extension,
/// then `-tag` when a tag is set, else `-branch` when a branch is.
pub open spec fn spec_repo_prefix(g: GitSource) -> Seq<char> {
    let base = before_first_dot(after_last_slash(g.repository@));
    match g.tag {
        Some(t) => base + seq!['-'] + t@,
        None => match g.branch {
            Some(b) => base + seq!['-'] + b@,
            None => base,
        },
    }
}

impl GitSource {
    /// The prefix under which this checkout is stored and archived.
    pub fn get_repo_prefix(&self) -> (r: String)
        ensures
            r@ == spec_repo_prefix(*self),
    {
        let tail = crate::paths::tail_after_last_slash(self.repository.as_str());
        let mut base = crate::paths::head_before_first_dot(tail.as_str());
        let suffix = match &self.tag {
            Some(t) => Some(t),
            None => match &self.branch {
                Some(b) => Some(b),
                None => None,
            },
        };
        match suffix {
            Some(s) => {
                base.append("-");
                base.append(s.as_str());
                proof {
                    reveal_strlit("-");
                    assert(base@ =~= spec_repo_prefix(*self));
                }
                base
            },
            None => base,
        }
    }
}

/// A copy of a source node, holding the same document content.
pub fn copy_source_node(n: &SourceNode) -> (r: SourceNode)
    ensures
        node_eqv(r, *n),
{
    match n {
        SourceNode::Archive(a) => SourceNode::Archive(
            ArchiveSource {
                src: a.src.clone(),
                sha512: copy_opt_string(&a.sha512),
                sha256: copy_opt_string(&a.sha256),
                signature_url_extension: copy_opt_string(&a.signature_url_extension),
                signature_url: copy_opt_string(&a.signature_url),
            },
        ),
        SourceNode::Git(g) => SourceNode::Git(
            GitSource {
                repository: g.repository.clone(),
                branch: copy_opt_string(&g.branch),
                tag: copy_opt_string(&g.tag),
                archive: g.archive,
                must_stay_as_repo: g.must_stay_as_repo,
                directory: copy_opt_string(&g.directory),
            },
        ),
        SourceNode::File(f) => SourceNode::File(
            FileSource {
                bundle_path: f.bundle_path.clone(),
                target_path: copy_opt_string(&f.target_path),
            },
        ),
        SourceNode::Directory(d) => SourceNode::Directory(
            DirectorySource {
                bundle_path: d.bundle_path.clone(),
                target_path: copy_opt_string(&d.target_path),
            },
        ),
        SourceNode::Patch(p) => SourceNode::Patch(
            PatchSource { bundle_path: p.bundle_path.clone(), drop_directories: p.drop_directories },
        ),
        SourceNode::Overlay(o) => SourceNode::Overlay(
            OverlaySource { bundle_path: o.bundle_path.clone() },
        ),
    }
}

/// A copy of a source section, holding the same document content.
pub fn copy_section(s: &SourceSection) -> (r: SourceSection)
    ensures
        section_eqv(r, *s),
{
    let mut sources: Vec<SourceNode> = Vec::new();
    let mut i: usize = 0;
    while i < s.sources.len()
        invariant
            i <= s.sources.len(),
            sources@.len() == i,
            forall|j: int| 0 <= j < i ==> node_eqv(#[trigger] sources@[j], s.sources@[j]),
        decreases s.sources.len() - i,
    {
        sources.push(copy_source_node(&s.sources[i]));
        i += 1;
    }
    SourceSection { name: copy_opt_string(&s.name), sources }
}

/// A copy of a dependency, holding the same document content.
pub fn copy_dependency(d: &Dependency) -> (r: Dependency)
    ensures
        dep_eqv(r, *d),
{
    Dependency { name: d.name.clone(), dev: d.dev, kind: d.kind }
}

/// A copy of an option node, holding the same document content.
pub fn copy_option_node(o: &BuildOptionNode) -> (r: BuildOptionNode)
    ensures
        option_node_eqv(r, *o),
{
    BuildOptionNode { option: o.option.clone() }
}

/// A copy of a flag node, holding the same document content.
pub fn copy_flag_node(f: &BuildFlagNode) -> (r: BuildFlagNode)
    ensures
        flag_eqv(r, *f),
{
    BuildFlagNode { flag: f.flag.clone(), flag_name: copy_opt_string(&f.flag_name) }
}

/// A copy of a script node, holding the same document content.
pub fn copy_script_node(s: &ScriptNode) -> (r: ScriptNode)
    ensures
        script_eqv(r, *s),
{
    ScriptNode { name: s.name.clone(), prototype_dir: copy_opt_string(&s.prototype_dir) }
}

/// A copy of an install directive, holding the same document content.
pub fn copy_install_node(d: &InstallDirectiveNode) -> (r: InstallDirectiveNode)
    ensures
        install_eqv(r, *d),
{
    InstallDirectiveNode {
        src: d.src.clone(),
        target: d.target.clone(),
        name: d.name.clone(),
        pattern: copy_opt_string(&d.pattern),
        fmatch: copy_opt_string(&d.fmatch),
    }
}

/// A copy of a configure section, holding the same document content.
pub fn copy_configure(c: &ConfigureBuildSection) -> (r: ConfigureBuildSection)
    ensures
        configure_eqv(r, *c),
{
    let mut options: Vec<BuildOptionNode> = Vec::new();
    let mut i: usize = 0;
    while i < c.options.len()
        invariant
            i <= c.options.len(),
            options@.len() == i,
            forall|j: int| 0 <= j < i ==> option_node_eqv(#[trigger] options@[j], c.options@[j]),
        decreases c.options.len() - i,
    {
        options.push(copy_option_node(&c.options[i]));
        i += 1;
    }
    let mut flags: Vec<BuildFlagNode> = Vec::new();
    let mut k: usize = 0;
    while k < c.flags.len()
        invariant
            k <= c.flags.len(),
            flags@.len() == k,
            forall|j: int| 0 <= j < k ==> flag_eqv(#[trigger] flags@[j], c.flags@[j]),
        decreases c.flags.len() - k,
    {
        flags.push(copy_flag_node(&c.flags[k]));
        k += 1;
    }
    ConfigureBuildSection {
        options,
        flags,
        compiler: copy_opt_string(&c.compiler),
        linker: copy_opt_string(&c.linker),
    }
}

/// A copy of a script build section, holding the same document content.
pub fn copy_scriptsec(s: &ScriptBuildSection) -> (r: ScriptBuildSection)
    ensures
        scriptsec_eqv(r, *s),
{
    let mut scripts: Vec<ScriptNode> = Vec::new();
    let mut i: usize = 0;
    while i < s.scripts.len()
        invariant
            i <= s.scripts.len(),
            scripts@.len() == i,
            forall|j: int| 0 <= j < i ==> script_eqv(#[trigger] scripts@[j], s.scripts@[j]),
        decreases s.scripts.len() - i,
    {
        scripts.push(copy_script_node(&s.scripts[i]));
        i += 1;
    }
    let mut install_directives: Vec<InstallDirectiveNode> = Vec::new();
    let mut k: usize = 0;
    while k < s.install_directives.len()
        invariant
            k <= s.install_directives.len(),
            install_directives@.len() == k,
            forall|j: int| 0 <= j < k ==> install_eqv(
                #[trigger] install_directives@[j],
                s.install_directives@[j],
            ),
        decreases s.install_directives.len() - k,
    {
        install_directives.push(copy_install_node(&s.install_directives[k]));
        k += 1;
    }
    ScriptBuildSection { scripts, install_directives }
}

/// A copy of a build section, holding the same document content.
pub fn copy_build_section(b: &BuildSection) -> (r: BuildSection)
    ensures
        build_eqv(r, *b),
{
    match b {
        BuildSection::Configure(c) => BuildSection::Configure(copy_configure(c)),
        BuildSection::CMake => BuildSection::CMake,
        BuildSection::Meson => BuildSection::Meson,
        BuildSection::Build(s) => BuildSection::Build(copy_scriptsec(s)),
        BuildSection::NoBuild => BuildSection::NoBuild,
    }
}

/// The tag under which a build section variant appears in documents
/// and in merge errors.
pub open spec fn build_tag(b: BuildSection) -> Seq<char> {
    match b {
        BuildSection::Configure(_) => "configure"@,
        BuildSection::CMake => "cmake"@,
        BuildSection::Meson => "meson"@,
        BuildSection::Build(_) => "build"@,
        BuildSection::NoBuild => "no-build"@,
    }
}

impl BuildSection {
    /// The variant tag of this build section.
    pub fn to_string(&self) -> (r: String)
        ensures
            r@ == build_tag(*self),
    {
        match self {
            BuildSection::Configure(_) => String::from_str("configure"),
            BuildSection::CMake => String::from_str("cmake"),
            BuildSection::Meson => String::from_str("meson"),
            BuildSection::Build(_) => String::from_str("build"),
            BuildSection::NoBuild => String::from_str("no-build"),
        }
    }
}

impl FileSource {
    /// A file source from a bundle-relative path and an optional
    /// target path inside the unpack directory.
    pub fn new(bundle_path: String, target_path: Option<String>) -> (r: Self)
        ensures
            r.bundle_path@ == bundle_path@,
            r.target_path.deep_view() == target_path.deep_view(),
    {
        FileSource { bundle_path, target_path }
    }

    /// The source path of the copy: the bundle path under `base_path`.
    pub fn get_bundle_path(&self, base_path: &str) -> (r: String)
        ensures
            r@ == crate::paths::spec_join(base_path@, self.bundle_path@),
    {
        crate::paths::path_join(base_path, self.bundle_path.as_str())
    }

    /// The destination of the copy: the target path when one is set,
    /// else the bundle path itself.
    pub fn get_target_path(&self) -> (r: String)
        ensures
            r@ == match self.target_path {
                Some(t) => t@,
                None => self.bundle_path@,
            },
    {
        match &self.target_path {
            Some(p) => p.clone(),
            None => self.bundle_path.clone(),
        }
    }
}

impl DirectorySource {
    /// A directory source from a bundle-relative path and an optional
    /// target path inside the build tree.
    pub fn new(bundle_path: String, target_path: Option<String>) -> (r: Self)
        ensures
            r.bundle_path@ == bundle_path@,
            r.target_path.deep_view() == target_path.deep_view(),
    {
        DirectorySource { bundle_path, target_path }
    }

    /// The source path of the copy: the bundle path under `base_path`.
    pub fn get_bundle_path(&self, base_path: &str) -> (r: String)
        ensures
            r@ == crate::paths::spec_join(base_path@, self.bundle_path@),
    {
        crate::paths::path_join(base_path, self.bundle_path.as_str())
    }

    /// The bundle path as the display name of this source.
    pub fn get_name(&self) -> (r: String)
        ensures
            r@ == self.bundle_path@,
    {
        self.bundle_path.clone()
    }

    /// The destination of the copy: the target path when one is set,
    /// else the bundle path itself.
    pub fn get_target_path(&self) -> (r: String)
        ensures
            r@ == match self.target_path {
                Some(t) => t@,
                None => self.bundle_path@,
            },
    {
        match &self.target_path {
            Some(p) => p.clone(),
            None => self.bundle_path.clone(),
        }
    }
}

impl PatchSource {
    /// A patch source from a bundle-relative path and an optional
    /// path-strip level.
    pub fn new(bundle_path: String, drop_directories: Option<i64>) -> (r: Self)
        ensures
            r.bundle_path@ == bundle_path@,
            r.drop_directories == drop_directories,
    {
        PatchSource { bundle_path, drop_directories }
    }

    /// The path of the patch file: the bundle path under `base_path`.
    pub fn get_bundle_path(&self, base_path: &str) -> (r: String)
        ensures
            r@ == crate::paths::spec_join(base_path@, self.bundle_path@),
    {
        crate::paths::path_join(base_path, self.bundle_path.as_str())
    }
}

impl OverlaySource {
    /// An overlay source from a bundle-relative path.
    pub fn new(bundle_path: String) -> (r: Self)
        ensures
            r.bundle_path@ == bundle_path@,
    {
        OverlaySource { bundle_path }
    }

    /// The overlaid directory: the bundle path under `base_path`.
    pub fn get_bundle_path(&self, base_path: &str) -> (r: String)
        ensures
            r@ == crate::paths::spec_join(base_path@, self.bundle_path@),
    {
        crate::paths::path_join(base_path, self.bundle_path.as_str())
    }
}

/// Overwrites the field with the other side's value where that one is
/// set.
fn override_opt(field: &mut Option<String>, other: &Option<String>)
    ensures
        final(field).deep_view() == merged_opt(old(field).deep_view(), other.deep_view()),
{
    if let Some(v) = other {
        *field = Some(v.clone());
    }
}

/// Appends a copy of every section of `src` to `dst`.
fn append_section_copies(dst: &mut Vec<SourceSection>, src: &Vec<SourceSection>)
    ensures
        final(dst)@.len() == old(dst)@.len() + src@.len(),
        forall|j: int| 0 <= j < old(dst)@.len() ==> #[trigger] final(dst)@[j] == old(dst)@[j],
        forall|j: int|
            old(dst)@.len() <= j < final(dst)@.len() ==> section_eqv(
                #[trigger] final(dst)@[j],
                src@[j - old(dst)@.len()],
            ),
{
    let mut i: usize = 0;
    while i < src.len()
        invariant
            i <= src@.len(),
            dst@.len() == old(dst)@.len() + i,
            forall|j: int| 0 <= j < old(dst)@.len() ==> #[trigger] dst@[j] == old(dst)@[j],
            forall|j: int|
                old(dst)@.len() <= j < dst@.len() ==> section_eqv(
                    #[trigger] dst@[j],
                    src@[j - old(dst)@.len()],
                ),
        decreases src@.len() - i,
    {
        dst.push(copy_section(&src[i]));
        i += 1;
    }
}

/// Appends a copy of every dependency of `src` to `dst`.
fn append_dependency_copies(dst: &mut Vec<Dependency>, src: &Vec<Dependency>)
    ensures
        final(dst)@.len() == old(dst)@.len() + src@.len(),
        forall|j: int| 0 <= j < old(dst)@.len() ==> #[trigger] final(dst)@[j] == old(dst)@[j],
        forall|j: int|
            old(dst)@.len() <= j < final(dst)@.len() ==> dep_eqv(
                #[trigger] final(dst)@[j],
                src@[j - old(dst)@.len()],
            ),
{
    let mut i: usize = 0;
    while i < src.len()
        invariant
            i <= src@.len(),
            dst@.len() == old(dst)@.len() + i,
            forall|j: int| 0 <= j < old(dst)@.len() ==> #[trigger] dst@[j] == old(dst)@[j],
            forall|j: int|
                old(dst)@.len() <= j < dst@.len() ==> dep_eqv(
                    #[trigger] dst@[j],
                    src@[j - old(dst)@.len()],
                ),
        decreases src@.len() - i,
    {
        dst.push(copy_dependency(&src[i]));
        i += 1;
    }
}

/// Appends a copy of every option node of `src` to `dst`.
fn append_option_copies(dst: &mut Vec<BuildOptionNode>, src: &Vec<BuildOptionNode>)
    ensures
        options_eqv(final(dst)@, old(dst)@ + src@),
        forall|j: int| 0 <= j < old(dst)@.len() ==> #[trigger] final(dst)@[j] == old(dst)@[j],
{
    let mut i: usize = 0;
    while i < src.len()
        invariant
            i <= src@.len(),
            dst@.len() == old(dst)@.len() + i,
            forall|j: int| 0 <= j < old(dst)@.len() ==> #[trigger] dst@[j] == old(dst)@[j],
            forall|j: int|
                old(dst)@.len() <= j < dst@.len() ==> option_node_eqv(
                    #[trigger] dst@[j],
                    src@[j - old(dst)@.len()],
                ),
        decreases src@.len() - i,
    {
        dst.push(copy_option_node(&src[i]));
        i += 1;
    }
    assert forall|j: int| 0 <= j < dst@.len() implies option_node_eqv(
        #[trigger] dst@[j],
        (old(dst)@ + src@)[j],
    ) by {
        if j < old(dst)@.len() {
            assert(dst@[j] == old(dst)@[j]);
        }
    }
}

/// Appends a copy of every flag node of `src` to `dst`.
fn append_flag_copies(dst: &mut Vec<BuildFlagNode>, src: &Vec<BuildFlagNode>)
    ensures
        flags_eqv(final(dst)@, old(dst)@ + src@),
        forall|j: int| 0 <= j < old(dst)@.len() ==> #[trigger] final(dst)@[j] == old(dst)@[j],
{
    let mut i: usize = 0;
    while i < src.len()
        invariant
            i <= src@.len(),
            dst@.len() == old(dst)@.len() + i,
            forall|j: int| 0 <= j < old(dst)@.len() ==> #[trigger] dst@[j] == old(dst)@[j],
            forall|j: int|
                old(dst)@.len() <= j < dst@.len() ==> flag_eqv(
                    #[trigger] dst@[j],
                    src@[j - old(dst)@.len()],
                ),
        decreases src@.len() - i,
    {
        dst.push(copy_flag_node(&src[i]));
        i += 1;
    }
    assert forall|j: int| 0 <= j < dst@.len() implies flag_eqv(
        #[trigger] dst@[j],
        (old(dst)@ + src@)[j],
    ) by {
        if j < old(dst)@.len() {
            assert(dst@[j] == old(dst)@[j]);
        }
    }
}

/// Appends a copy of every script node of `src` to `dst`.
fn append_script_copies(dst: &mut Vec<ScriptNode>, src: &Vec<ScriptNode>)
    ensures
        scripts_eqv(final(dst)@, old(dst)@ + src@),
{
    let mut i: usize = 0;
    while i < src.len()
        invariant
            i <= src@.len(),
            dst@.len() == old(dst)@.len() + i,
            forall|j: int| 0 <= j < old(dst)@.len() ==> #[trigger] dst@[j] == old(dst)@[j],
            forall|j: int|
                old(dst)@.len() <= j < dst@.len() ==> script_eqv(
                    #[trigger] dst@[j],
                    src@[j - old(dst)@.len()],
                ),
        decreases src@.len() - i,
    {
        dst.push(copy_script_node(&src[i]));
        i += 1;
    }
    assert forall|j: int| 0 <= j < dst@.len() implies script_eqv(
        #[trigger] dst@[j],
        (old(dst)@ + src@)[j],
    ) by {
        if j < old(dst)@.len() {
            assert(dst@[j] == old(dst)@[j]);
        }
    }
}

/// Appends a copy of every install directive of `src` to `dst`.
fn append_install_copies(dst: &mut Vec<InstallDirectiveNode>, src: &Vec<InstallDirectiveNode>)
    ensures
        installs_eqv(final(dst)@, old(dst)@ + src@),
{
    let mut i: usize = 0;
    while i < src.len()
        invariant
            i <= src@.len(),
            dst@.len() == old(dst)@.len() + i,
            forall|j: int| 0 <= j < old(dst)@.len() ==> #[trigger] dst@[j] == old(dst)@[j],
            forall|j: int|
                old(dst)@.len() <= j < dst@.len() ==> install_eqv(
                    #[trigger] dst@[j],
                    src@[j - old(dst)@.len()],
                ),
        decreases src@.len() - i,
    {
        dst.push(copy_install_node(&src[i]));
        i += 1;
    }
    assert forall|j: int| 0 <= j < dst@.len() implies install_eqv(
        #[trigger] dst@[j],
        (old(dst)@ + src@)[j],
    ) by {
        if j < old(dst)@.len() {
            assert(dst@[j] == old(dst)@[j]);
        }
    }
}

impl Package {
    /// The first declared build section, when one is present.
    pub fn get_build_section(&self) -> (r: Option<BuildSection>)
        ensures
            match r {
                Some(b) => self.build_section@.len() > 0 && build_eqv(b, self.build_section@[0]),
                None => self.build_section@.len() == 0,
            },
    {
        if self.build_section.len() > 0 {
            Some(copy_build_section(&self.build_section[0]))
        } else {
            None
        }
    }

    /// The first declared build section, or no build when none is.
    pub fn ensure_build_section(&self) -> (r: BuildSection)
        ensures
            build_eqv(r, self_build_of(*self)),
    {
        if self.build_section.len() > 0 {
            copy_build_section(&self.build_section[0])
        } else {
            BuildSection::NoBuild
        }
    }

    /// Merges a gate package stub into this package: scalars of the
    /// stub overwrite where set, sources and dependencies append, and
    /// the build sections merge by the table; an impossible pairing
    /// is refused and leaves the package untouched.
    pub fn merge_into_mut(&mut self, other: &Package) -> (r: Result<(), BundleError>)
        ensures
            match r {
                Ok(_) => pkg_mergeable(*old(self), *other) && merge_rel(*old(self), *other, *final(self)),
                Err(e) => {
                    &&& !pkg_mergeable(*old(self), *other)
                    &&& *final(self) == *old(self)
                    &&& (e matches BundleError::NonMergableBuildSections(s1, s2) && s1@ == build_tag(
                        self_build_of(*old(self)),
                    ) && s2@ == build_tag(other.build_section@[0]))
                },
            },
    {
        if other.build_section.len() > 0 {
            let ob = &other.build_section[0];
            let compat: bool = match ob {
                BuildSection::NoBuild => true,
                BuildSection::Configure(_) => self.build_section.len() == 0 || (matches!(
                    &self.build_section[0],
                    BuildSection::Configure(_) | BuildSection::NoBuild
                )),
                BuildSection::Build(_) => self.build_section.len() == 0 || (matches!(
                    &self.build_section[0],
                    BuildSection::Build(_) | BuildSection::NoBuild
                )),
                BuildSection::CMake => self.build_section.len() == 0 || (matches!(
                    &self.build_section[0],
                    BuildSection::NoBuild
                )),
                BuildSection::Meson => self.build_section.len() == 0 || (matches!(
                    &self.build_section[0],
                    BuildSection::NoBuild
                )),
            };
            if !compat {
                return Err(
                    BundleError::NonMergableBuildSections(
                        self.build_section[0].to_string(),
                        ob.to_string(),
                    ),
                );
            }
        }
        let ghost pre = *self;
        self.name = other.name.clone();
        override_opt(&mut self.classification, &other.classification);
        override_opt(&mut self.summary, &other.summary);
        override_opt(&mut self.license_file, &other.license_file);
        override_opt(&mut self.license, &other.license);
        override_opt(&mut self.prefix, &other.prefix);
        override_opt(&mut self.version, &other.version);
        override_opt(&mut self.revision, &other.revision);
        override_opt(&mut self.project_url, &other.project_url);
        append_section_copies(&mut self.sources, &other.sources);
        append_dependency_copies(&mut self.dependencies, &other.dependencies);
        if other.build_section.len() > 0 {
            let sb: BuildSection = if self.build_section.len() > 0 {
                self.build_section.remove(0)
            } else {
                BuildSection::NoBuild
            };
            proof {
                assert(sb == self_build_of(pre));
            }
            let ob = &other.build_section[0];
            let merged: BuildSection = match ob {
                BuildSection::NoBuild => sb,
                BuildSection::Configure(oc) => match sb {
                    BuildSection::Configure(c) => {
                        let mut options = c.options;
                        append_option_copies(&mut options, &oc.options);
                        let mut flags = c.flags;
                        append_flag_copies(&mut flags, &oc.flags);
                        let compiler = if oc.compiler.is_some() {
                            copy_opt_string(&oc.compiler)
                        } else {
                            c.compiler
                        };
                        let linker = if oc.linker.is_some() {
                            copy_opt_string(&oc.linker)
                        } else {
                            c.linker
                        };
                        BuildSection::Configure(
                            ConfigureBuildSection { options, flags, compiler, linker },
                        )
                    },
                    BuildSection::NoBuild => BuildSection::Configure(copy_configure(oc)),
                    _ => vstd::pervasive::unreached(),
                },
                BuildSection::Build(os) => match sb {
                    BuildSection::Build(s) => {
                        let mut scripts = s.scripts;
                        append_script_copies(&mut scripts, &os.scripts);
                        let mut install_directives = s.install_directives;
                        append_install_copies(&mut install_directives, &os.install_directives);
                        BuildSection::Build(ScriptBuildSection { scripts, install_directives })
                    },
                    BuildSection::NoBuild => BuildSection::Build(copy_scriptsec(os)),
                    _ => vstd::pervasive::unreached(),
                },
                BuildSection::CMake => match sb {
                    BuildSection::NoBuild => BuildSection::CMake,
                    _ => vstd::pervasive::unreached(),
                },
                BuildSection::Meson => match sb {
                    BuildSection::NoBuild => BuildSection::Meson,
                    _ => vstd::pervasive::unreached(),
                },
            };
            let mut section_vec: Vec<BuildSection> = Vec::new();
            section_vec.push(merged);
            self.build_section = section_vec;
        }
        Ok(())
    }
}

/// A copy of a package, holding the same document content.
pub fn copy_package(p: &Package) -> (r: Package)
    ensures
        pkg_eqv(r, *p),
{
    let mut maintainers: Vec<String> = Vec::new();
    let mut i: usize = 0;
    while i < p.maintainers.len()
        invariant
            i <= p.maintainers@.len(),
            maintainers@.len() == i,
            forall|j: int| 0 <= j < i ==> (#[trigger] maintainers@[j])@ == p.maintainers@[j]@,
        decreases p.maintainers@.len() - i,
    {
        maintainers.push(p.maintainers[i].clone());
        i += 1;
    }
    let mut sources: Vec<SourceSection> = Vec::new();
    let mut k: usize = 0;
    while k < p.sources.len()
        invariant
            k <= p.sources@.len(),
            sources@.len() == k,
            forall|j: int| 0 <= j < k ==> section_eqv(#[trigger] sources@[j], p.sources@[j]),
        decreases p.sources@.len() - k,
    {
        sources.push(copy_section(&p.sources[k]));
        k += 1;
    }
    let mut dependencies: Vec<Dependency> = Vec::new();
    let mut d: usize = 0;
    while d < p.dependencies.len()
        invariant
            d <= p.dependencies@.len(),
            dependencies@.len() == d,
            forall|j: int| 0 <= j < d ==> dep_eqv(#[trigger] dependencies@[j], p.dependencies@[j]),
        decreases p.dependencies@.len() - d,
    {
        dependencies.push(copy_dependency(&p.dependencies[d]));
        d += 1;
    }
    let mut build_section: Vec<BuildSection> = Vec::new();
    let mut b: usize = 0;
    while b < p.build_section.len()
        invariant
            b <= p.build_section@.len(),
            build_section@.len() == b,
            forall|j: int| 0 <= j < b ==> build_eqv(#[trigger] build_section@[j], p.build_section@[j]),
        decreases p.build_section@.len() - b,
    {
        build_section.push(copy_build_section(&p.build_section[b]));
        b += 1;
    }
    Package {
        name: p.name.clone(),
        project_name: p.project_name.clone(),
        classification: copy_opt_string(&p.classification),
        maintainers,
        summary: copy_opt_string(&p.summary),
        license_file: copy_opt_string(&p.license_file),
        license: copy_opt_string(&p.license),
        prefix: copy_opt_string(&p.prefix),
        version: copy_opt_string(&p.version),
        revision: copy_opt_string(&p.revision),
        project_url: copy_opt_string(&p.project_url),
        seperate_build_dir: p.seperate_build_dir,
        sources,
        dependencies,
        build_section,
    }
}

/// The parsed bundle: its directory, its package document, and
/// whether a mogrify manifest sits beside it.
#[derive(Debug, Clone, PartialEq)]
pub struct Bundle {
    pub path: String,
    pub package_document: Package,
    pub has_mogrify_manifest: bool,
}

impl Bundle {
    /// A bundle from its directory path, its parsed document, and
    /// whether the directory carries a `manifest.mog`.
    pub fn new(path: String, package_document: Package, has_mogrify_manifest: bool) -> (r: Self)
        ensures
            r.path == path,
            r.package_document == package_document,
            r.has_mogrify_manifest == has_mogrify_manifest,
    {
        Bundle { path, package_document, has_mogrify_manifest }
    }

    /// The bundle's directory.
    pub fn get_path(&self) -> (r: &String)
        ensures
            r@ == self.path@,
    {
        &self.path
    }

    /// The package name.
    pub fn get_name(&self) -> (r: String)
        ensures
            r@ == self.package_document.name@,
    {
        self.package_document.name.clone()
    }

    /// The path of the bundle's own mogrify manifest, when it has one.
    pub fn get_mogrify_manifest(&self) -> (r: Option<String>)
        ensures
            match r {
                Some(p) => self.has_mogrify_manifest && p@ == crate::paths::spec_join(
                    self.path@,
                    "manifest.mog"@,
                ),
                None => !self.has_mogrify_manifest,
            },
    {
        if self.has_mogrify_manifest {
            Some(crate::paths::path_join(self.path.as_str(), "manifest.mog"))
        } else {
            None
        }
    }

    /// Appends a source node to the first source section, creating
    /// one section when the document has none.
    pub fn add_source(&mut self, node: SourceNode)
        ensures
            final(self).path == old(self).path,
            final(self).has_mogrify_manifest == old(self).has_mogrify_manifest,
            final(self).package_document == (Package {
                sources: final(self).package_document.sources,
                ..old(self).package_document
            }),
            ({
                let pre = old(self).package_document.sources@;
                let post = final(self).package_document.sources@;
                if pre.len() == 0 {
                    &&& post.len() == 1
                    &&& post[0].name is None
                    &&& post[0].sources@ == seq![node]
                } else {
                    &&& post.len() == pre.len()
                    &&& (forall|j: int| 1 <= j < post.len() ==> #[trigger] post[j] == pre[j])
                    &&& post[0].name == pre[0].name
                    &&& post[0].sources@ == pre[0].sources@.push(node)
                }
            }),
    {
        if self.package_document.sources.len() == 0 {
            let mut sources: Vec<SourceNode> = Vec::new();
            sources.push(node);
            self.package_document.sources.push(SourceSection { name: None, sources });
        } else {
            let mut first = self.package_document.sources.remove(0);
            first.sources.push(node);
            self.package_document.sources.insert(0, first);
        }
    }
}

/// Assembles a package from optional inputs; `build` refuses to
/// finish while a required field is missing.
#[derive(Debug, Clone, PartialEq)]
pub struct PackageBuilder {
    pub name: Option<String>,
    pub project_name: Option<String>,
    pub classification: Option<String>,
    pub maintainers: Vec<String>,
    pub summary: Option<String>,
    pub license_file: Option<String>,
    pub license: Option<String>,
    pub prefix: Option<String>,
    pub version: Option<String>,
    pub revision: Option<String>,
    pub project_url: Option<String>,
    pub seperate_build_dir: bool,
    pub sources: Vec<SourceSection>,
    pub dependencies: Vec<Dependency>,
    pub build_section: Vec<BuildSection>,
}

impl Default for PackageBuilder {
    /// A builder with nothing set.
    fn default() -> (r: Self)
        ensures
            r.name is None,
            r.project_name is None,
            r.classification is None,
            r.maintainers@.len() == 0,
            r.summary is None,
            r.license_file is None,
            r.license is None,
            r.prefix is None,
            r.version is None,
            r.revision is None,
            r.project_url is None,
            !r.seperate_build_dir,
            r.sources@.len() == 0,
            r.dependencies@.len() == 0,
            r.build_section@.len() == 0,
    {
        PackageBuilder {
            name: None,
            project_name: None,
            classification: None,
            maintainers: Vec::new(),
            summary: None,
            license_file: None,
            license: None,
            prefix: None,
            version: None,
            revision: None,
            project_url: None,
            seperate_build_dir: false,
            sources: Vec::new(),
            dependencies: Vec::new(),
            build_section: Vec::new(),
        }
    }
}

impl PackageBuilder {
    /// Sets the package name.
    pub fn name(self, value: &str) -> (r: Self)
        ensures
            r.name matches Some(s) && s@ == value@,
            (PackageBuilder { name: self.name, ..r }) == self,
    {
        PackageBuilder { name: Some(String::from_str(value)), ..self }
    }

    /// Sets the upstream project name.
    pub fn project_name(self, value: &str) -> (r: Self)
        ensures
            r.project_name matches Some(s) && s@ == value@,
            (PackageBuilder { project_name: self.project_name, ..r }) == self,
    {
        PackageBuilder { project_name: Some(String::from_str(value)), ..self }
    }

    /// Sets the classification.
    pub fn classification(self, value: &str) -> (r: Self)
        ensures
            r.classification matches Some(s) && s@ == value@,
            (PackageBuilder { classification: self.classification, ..r }) == self,
    {
        PackageBuilder { classification: Some(String::from_str(value)), ..self }
    }

    /// Sets the one-line summary.
    pub fn summary(self, value: &str) -> (r: Self)
        ensures
            r.summary matches Some(s) && s@ == value@,
            (PackageBuilder { summary: self.summary, ..r }) == self,
    {
        PackageBuilder { summary: Some(String::from_str(value)), ..self }
    }

    /// Sets the license identifier.
    pub fn license(self, value: &str) -> (r: Self)
        ensures
            r.license matches Some(s) && s@ == value@,
            (PackageBuilder { license: self.license, ..r }) == self,
    {
        PackageBuilder { license: Some(String::from_str(value)), ..self }
    }

    /// Sets the license file path.
    pub fn license_file(self, value: &str) -> (r: Self)
        ensures
            r.license_file matches Some(s) && s@ == value@,
            (PackageBuilder { license_file: self.license_file, ..r }) == self,
    {
        PackageBuilder { license_file: Some(String::from_str(value)), ..self }
    }

    /// Sets the install prefix.
    pub fn prefix(self, value: &str) -> (r: Self)
        ensures
            r.prefix matches Some(s) && s@ == value@,
            (PackageBuilder { prefix: self.prefix, ..r }) == self,
    {
        PackageBuilder { prefix: Some(String::from_str(value)), ..self }
    }

    /// Sets the upstream version.
    pub fn version(self, value: &str) -> (r: Self)
        ensures
            r.version matches Some(s) && s@ == value@,
            (PackageBuilder { version: self.version, ..r }) == self,
    {
        PackageBuilder { version: Some(String::from_str(value)), ..self }
    }

    /// Sets the packaging revision.
    pub fn revision(self, value: &str) -> (r: Self)
        ensures
            r.revision matches Some(s) && s@ == value@,
            (PackageBuilder { revision: self.revision, ..r }) == self,
    {
        PackageBuilder { revision: Some(String::from_str(value)), ..self }
    }

    /// Sets the upstream project URL.
    pub fn project_url(self, value: &str) -> (r: Self)
        ensures
            r.project_url matches Some(s) && s@ == value@,
            (PackageBuilder { project_url: self.project_url, ..r }) == self,
    {
        PackageBuilder { project_url: Some(String::from_str(value)), ..self }
    }

    /// Sets the maintainer list.
    pub fn maintainers(self, value: Vec<String>) -> (r: Self)
        ensures
            r.maintainers == value,
            (PackageBuilder { maintainers: self.maintainers, ..r }) == self,
    {
        PackageBuilder { maintainers: value, ..self }
    }

    /// Sets the source sections.
    pub fn sources(self, value: Vec<SourceSection>) -> (r: Self)
        ensures
            r.sources == value,
            (PackageBuilder { sources: self.sources, ..r }) == self,
    {
        PackageBuilder { sources: value, ..self }
    }

    /// Sets the dependency list.
    pub fn dependencies(self, value: Vec<Dependency>) -> (r: Self)
        ensures
            r.dependencies == value,
            (PackageBuilder { dependencies: self.dependencies, ..r }) == self,
    {
        PackageBuilder { dependencies: value, ..self }
    }

    /// Finishes the package; the name and the project name must have
    /// been set, everything else defaults.
    pub fn build(self) -> (r: Result<Package, BundleError>)
        ensures
            match r {
                Ok(p) => {
                    &&& self.name matches Some(n) && p.name == n
                    &&& self.project_name matches Some(n) && p.project_name == n
                    &&& p.classification == self.classification
                    &&& p.maintainers == self.maintainers
                    &&& p.summary == self.summary
                    &&& p.license_file == self.license_file
                    &&& p.license == self.license
                    &&& p.prefix == self.prefix
                    &&& p.version == self.version
                    &&& p.revision == self.revision
                    &&& p.project_url == self.project_url
                    &&& p.seperate_build_dir == self.seperate_build_dir
                    &&& p.sources == self.sources
                    &&& p.dependencies == self.dependencies
                    &&& p.build_section == self.build_section
                },
                Err(_) => self.name is None || self.project_name is None,
            },
    {
        let name = match self.name {
            Some(n) => n,
            None => {
                return Err(BundleError::UninitializedField(String::from_str("name")));
            },
        };
        let project_name = match self.project_name {
            Some(n) => n,
            None => {
                return Err(BundleError::UninitializedField(String::from_str("project_name")));
            },
        };
        Ok(
            Package {
                name,
                project_name,
                classification: self.classification,
                maintainers: self.maintainers,
                summary: self.summary,
                license_file: self.license_file,
                license: self.license,
                prefix: self.prefix,
                version: self.version,
                revision: self.revision,
                project_url: self.project_url,
                seperate_build_dir: self.seperate_build_dir,
                sources: self.sources,
                dependencies: self.dependencies,
                build_section: self.build_section,
            },
        )
    }
}

} // verus!
