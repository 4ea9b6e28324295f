//! The unpacker: turns the source sections of a bundle into the
//! deterministic list of steps that materialise a build tree —
//! archive extraction, file copies, patches, overlays and directory
//! copies, in document order.  The unverified binary executes the
//! steps.

use vstd::prelude::*;
use vstd::string::StringExecFns;

use crate::acquire::spec_git_archive_path;
use crate::bundle::{SourceNode, SourceSection};
use crate::paths::{spec_join, spec_underscored};
use crate::strutil::spec_i64_dec;
use crate::workspace::url_file_name;

verus! {

/// What can go wrong while planning or judging an unpack.
#[derive(Debug, Clone, PartialEq)]
pub enum UnpackError {
    /// A second or later Git source of a section without its own
    /// directory.
    MissingDirectory(String),
    /// An archive source whose URL has no usable file name.
    URLError(String),
    /// The archive to extract is not in the cache.
    MissingArchive(String),
    /// An extracted archive without exactly one top-level directory.
    NotSingleTopLevel(String),
}

/// One step of the unpack pass.
#[derive(Debug, Clone, PartialEq)]
pub enum UnpackStep {
    /// Extract the cached archive into the unpack path, skipping the
    /// extraction when the path already exists.
    ExtractArchive { archive_path: String, unpack_path: String },
    /// Copy one file out of the bundle, creating parents.
    CopyFile { src: String, dest: String },
    /// Run the patch tool with these arguments.
    ApplyPatch { args: Vec<String> },
    /// Copy a directory tree over the unpack root, overwriting.
    OverlayDir { src: String, dest: String },
    /// Copy a directory tree into the build tree.
    CopyDir { src: String, dest: String },
}

/// The directory name a section unpacks into.
pub open spec fn spec_unpack_name(package_name: Seq<char>, s: SourceSection) -> Seq<char> {
    match s.name {
        Some(n) => spec_underscored(n@),
        None => spec_underscored(package_name),
    }
}

/// A node that brings an archive to extract.
pub open spec fn is_fetch_node(n: SourceNode) -> bool {
    n is Archive || n is Git
}

/// Node `j` is the first archive-bearing node of its section.
pub open spec fn first_fetch(nodes: Seq<SourceNode>, j: int) -> bool {
    &&& is_fetch_node(nodes[j])
    &&& forall|k: int| 0 <= k < j ==> !is_fetch_node(#[trigger] nodes[k])
}

/// A node the planner accepts: archives need a usable file name in
/// their URL, and a Git source past the first fetch of its section
/// needs its own directory.
pub open spec fn node_plan_ok(n: SourceNode, is_first: bool) -> bool {
    match n {
        SourceNode::Archive(a) => url_file_name(a.src@) is Some,
        SourceNode::Git(g) => is_first || g.directory is Some,
        _ => true,
    }
}

/// The patch tool's argument list: the unpack directory, the strip
/// level when one is declared, and the patch file.
pub open spec fn patch_args_ok(
    args: Seq<String>,
    drop_directories: Option<i64>,
    unpack_path: Seq<char>,
    patch_file: Seq<char>,
) -> bool {
    match drop_directories {
        Some(k) => {
            &&& args.len() == 5
            &&& args[0]@ == "-d"@
            &&& args[1]@ == unpack_path
            &&& args[2]@ == "-p"@ + spec_i64_dec(k as int)
            &&& args[3]@ == "-i"@
            &&& args[4]@ == patch_file
        },
        None => {
            &&& args.len() == 4
            &&& args[0]@ == "-d"@
            &&& args[1]@ == unpack_path
            &&& args[2]@ == "-i"@
            &&& args[3]@ == patch_file
        },
    }
}

/// What the step of one node must be.
pub open spec fn step_for_node(
    step: UnpackStep,
    n: SourceNode,
    is_first: bool,
    unpack_path: Seq<char>,
    bundle_path: Seq<char>,
    build_dir: Seq<char>,
    archives_dir: Seq<char>,
) -> bool {
    match n {
        SourceNode::Archive(a) => step matches UnpackStep::ExtractArchive {
            archive_path,
            unpack_path: up,
        } && archive_path@ == spec_join(archives_dir, url_file_name(a.src@)->Some_0) && up@
            == unpack_path,
        SourceNode::Git(g) => step matches UnpackStep::ExtractArchive {
            archive_path,
            unpack_path: up,
        } && archive_path@ == spec_git_archive_path(g, archives_dir) && up@ == (if is_first {
            unpack_path
        } else {
            spec_join(build_dir, g.directory->0@)
        }),
        SourceNode::File(f) => step matches UnpackStep::CopyFile { src, dest } && src@ == spec_join(
            bundle_path,
            f.bundle_path@,
        ) && dest@ == spec_join(
            unpack_path,
            match f.target_path {
                Some(t) => t@,
                None => f.bundle_path@,
            },
        ),
        SourceNode::Patch(p) => step matches UnpackStep::ApplyPatch { args } && patch_args_ok(
            args@,
            p.drop_directories,
            unpack_path,
            spec_join(bundle_path, p.bundle_path@),
        ),
        SourceNode::Overlay(o) => step matches UnpackStep::OverlayDir { src, dest } && src@
            == spec_join(bundle_path, o.bundle_path@) && dest@ == unpack_path,
        SourceNode::Directory(d) => step matches UnpackStep::CopyDir { src, dest } && src@
            == spec_join(bundle_path, d.bundle_path@) && dest@ == spec_join(
            build_dir,
            match d.target_path {
                Some(t) => t@,
                None => d.bundle_path@,
            },
        ),
    }
}

/// Plans the unpack of one source section, one step per node in
/// document order; refused exactly when some node cannot be planned.
pub fn plan_section_unpack(
    package_name: &str,
    bundle_path: &str,
    build_dir: &str,
    archives_dir: &str,
    section: &SourceSection,
) -> (r: Result<Vec<UnpackStep>, UnpackError>)
    ensures
        r is Ok <==> (forall|j: int|
            0 <= j < section.sources@.len() ==> node_plan_ok(
                #[trigger] section.sources@[j],
                first_fetch(section.sources@, j),
            )),
        r matches Ok(steps) ==> {
            &&& steps@.len() == section.sources@.len()
            &&& forall|j: int|
                0 <= j < steps@.len() ==> step_for_node(
                    #[trigger] steps@[j],
                    section.sources@[j],
                    first_fetch(section.sources@, j),
                    spec_join(build_dir@, spec_unpack_name(package_name@, *section)),
                    bundle_path@,
                    build_dir@,
                    archives_dir@,
                )
        },
{
    let unpack_name = crate::paths::derive_source_name(String::from_str(package_name), section);
    let unpack_path = crate::paths::path_join(build_dir, unpack_name.as_str());
    let mut steps: Vec<UnpackStep> = Vec::new();
    let mut seen_fetch = false;
    let mut i: usize = 0;
    while i < section.sources.len()
        invariant
            i <= section.sources@.len(),
            unpack_path@ == spec_join(build_dir@, spec_unpack_name(package_name@, *section)),
            seen_fetch == !(forall|k: int|
                0 <= k < i ==> !is_fetch_node(#[trigger] section.sources@[k])),
            steps@.len() == i,
            forall|j: int|
                0 <= j < i ==> node_plan_ok(
                    #[trigger] section.sources@[j],
                    first_fetch(section.sources@, j),
                ),
            forall|j: int|
                0 <= j < i ==> step_for_node(
                    #[trigger] steps@[j],
                    section.sources@[j],
                    first_fetch(section.sources@, j),
                    spec_join(build_dir@, spec_unpack_name(package_name@, *section)),
                    bundle_path@,
                    build_dir@,
                    archives_dir@,
                ),
        decreases section.sources@.len() - i,
    {
        let node = &section.sources[i];
        let is_first = !seen_fetch;
        match node {
            SourceNode::Archive(a) => {
                let local = match crate::workspace::url_path(a.src.as_str()) {
                    Some(p) => p,
                    None => {
                        return Err(UnpackError::URLError(a.src.clone()));
                    },
                };
                let file_name = crate::paths::tail_after_last_slash(local.as_str());
                if file_name.unicode_len() == 0 {
                    return Err(UnpackError::URLError(a.src.clone()));
                }
                let archive_path = crate::paths::path_join(archives_dir, file_name.as_str());
                steps.push(
                    UnpackStep::ExtractArchive {
                        archive_path,
                        unpack_path: unpack_path.clone(),
                    },
                );
                seen_fetch = true;
            },
            SourceNode::Git(g) => {
                let prefix = g.get_repo_prefix();
                let base = crate::paths::path_join(archives_dir, prefix.as_str());
                let archive_path = crate::paths::add_extension(base.as_str(), "tar.gz");
                proof {
                    assert(archive_path@ =~= spec_git_archive_path(*g, archives_dir@));
                }
                if is_first {
                    steps.push(
                        UnpackStep::ExtractArchive {
                            archive_path,
                            unpack_path: unpack_path.clone(),
                        },
                    );
                } else {
                    match &g.directory {
                        Some(dir) => {
                            let up = crate::paths::path_join(build_dir, dir.as_str());
                            steps.push(
                                UnpackStep::ExtractArchive { archive_path, unpack_path: up },
                            );
                        },
                        None => {
                            return Err(UnpackError::MissingDirectory(g.repository.clone()));
                        },
                    }
                }
                seen_fetch = true;
            },
            SourceNode::File(f) => {
                let src = f.get_bundle_path(bundle_path);
                let target = f.get_target_path();
                let dest = crate::paths::path_join(unpack_path.as_str(), target.as_str());
                steps.push(UnpackStep::CopyFile { src, dest });
            },
            SourceNode::Patch(p) => {
                let src = p.get_bundle_path(bundle_path);
                let mut args: Vec<String> = Vec::new();
                args.push(String::from_str("-d"));
                args.push(unpack_path.clone());
                match p.drop_directories {
                    Some(k) => {
                        let mut strip = String::from_str("-p");
                        strip.append(crate::strutil::i64_dec(k).as_str());
                        args.push(strip);
                    },
                    None => {},
                }
                args.push(String::from_str("-i"));
                args.push(src);
                steps.push(UnpackStep::ApplyPatch { args });
            },
            SourceNode::Overlay(o) => {
                let src = o.get_bundle_path(bundle_path);
                steps.push(UnpackStep::OverlayDir { src, dest: unpack_path.clone() });
            },
            SourceNode::Directory(d) => {
                let src = d.get_bundle_path(bundle_path);
                let target = d.get_target_path();
                let dest = crate::paths::path_join(build_dir, target.as_str());
                steps.push(UnpackStep::CopyDir { src, dest });
            },
        }
        i += 1;
    }
    Ok(steps)
}

/// The number of steps the first `upto` sections contribute.
pub open spec fn total_steps(sections: Seq<SourceSection>, upto: int) -> int
    decreases upto,
{
    if upto <= 0 {
        0
    } else {
        total_steps(sections, upto - 1) + sections[upto - 1].sources@.len()
    }
}

/// Plans the whole unpack pass: every section in order, every node
/// in section order; refused exactly when some node cannot be
/// planned.  The plan depends on the document alone, so a re-run
/// re-applies every file, patch and overlay step, while extraction
/// steps skip a target that already exists.
pub fn unpack_sources(
    package_name: &str,
    bundle_path: &str,
    build_dir: &str,
    archives_dir: &str,
    sections: &Vec<SourceSection>,
) -> (r: Result<Vec<UnpackStep>, UnpackError>)
    ensures
        r is Ok <==> (forall|si: int, j: int|
            0 <= si < sections@.len() && 0 <= j < sections@[si].sources@.len() ==> node_plan_ok(
                #[trigger] sections@[si].sources@[j],
                first_fetch(sections@[si].sources@, j),
            )),
        r matches Ok(steps) ==> {
            &&& steps@.len() == total_steps(sections@, sections@.len() as int)
            &&& forall|si: int, j: int|
                0 <= si < sections@.len() && 0 <= j < sections@[si].sources@.len()
                    ==> step_for_node(
                    steps@[total_steps(sections@, si) + j],
                    #[trigger] sections@[si].sources@[j],
                    first_fetch(sections@[si].sources@, j),
                    spec_join(build_dir@, spec_unpack_name(package_name@, sections@[si])),
                    bundle_path@,
                    build_dir@,
                    archives_dir@,
                )
        },
{
    let mut steps: Vec<UnpackStep> = Vec::new();
    let mut si: usize = 0;
    while si < sections.len()
        invariant
            si <= sections@.len(),
            steps@.len() == total_steps(sections@, si as int),
            forall|s: int, j: int|
                0 <= s < si && 0 <= j < sections@[s].sources@.len() ==> node_plan_ok(
                    #[trigger] sections@[s].sources@[j],
                    first_fetch(sections@[s].sources@, j),
                ),
            forall|s: int, j: int|
                0 <= s < si && 0 <= j < sections@[s].sources@.len() ==> step_for_node(
                    steps@[total_steps(sections@, s) + j],
                    #[trigger] sections@[s].sources@[j],
                    first_fetch(sections@[s].sources@, j),
                    spec_join(build_dir@, spec_unpack_name(package_name@, sections@[s])),
                    bundle_path@,
                    build_dir@,
                    archives_dir@,
                ),
        decreases sections@.len() - si,
    {
        let section = &sections[si];
        let mut sub = match plan_section_unpack(
            package_name,
            bundle_path,
            build_dir,
            archives_dir,
            section,
        ) {
            Ok(s) => s,
            Err(e) => {
                return Err(e);
            },
        };
        let ghost pre = steps@;
        steps.append(&mut sub);
        proof {
            assert(steps@.len() == total_steps(sections@, si + 1));
            assert forall|s: int, j: int|
                0 <= s < si + 1 && 0 <= j < sections@[s].sources@.len() implies step_for_node(
                steps@[total_steps(sections@, s) + j],
                #[trigger] sections@[s].sources@[j],
                first_fetch(sections@[s].sources@, j),
                spec_join(build_dir@, spec_unpack_name(package_name@, sections@[s])),
                bundle_path@,
                build_dir@,
                archives_dir@,
            ) by {
                if s < si as int {
                    assert(0 <= total_steps(sections@, s) + j < pre.len()) by {
                        lemma_total_steps_bounds(sections@, s, si as int);
                    }
                    assert(steps@[total_steps(sections@, s) + j] == pre[total_steps(
                        sections@,
                        s,
                    ) + j]);
                }
            }
        }
        si += 1;
    }
    Ok(steps)
}

/// The step count of a prefix never passes the step count of a
/// longer prefix.
proof fn lemma_total_steps_bounds(sections: Seq<SourceSection>, s: int, upto: int)
    requires
        0 <= s < upto <= sections.len(),
    ensures
        total_steps(sections, s) + sections[s].sources@.len() <= total_steps(sections, upto),
        0 <= total_steps(sections, s),
    decreases upto,
{
    if s + 1 < upto {
        lemma_total_steps_bounds(sections, s, upto - 1);
    }
    if 0 < s {
        lemma_total_steps_bounds(sections, s - 1, s);
    }
}

/// How one extraction ends: the cached archive must exist; a target
/// that is already present is skipped untouched, and a fresh
/// extraction must leave exactly one top-level directory to move
/// into place.
#[derive(Debug, Clone, PartialEq)]
pub enum UnpackOutcome {
    /// The unpack path already exists; extraction is skipped.
    SkipExisting,
    /// Move the single extracted top-level entry to the unpack path.
    MoveTopLevel(String),
}

/// Judges one archive extraction.  Re-running over an existing
/// unpack path skips the extraction and touches nothing.
pub fn archive_unpack_outcome(
    archive_path: &String,
    archive_exists: bool,
    target_exists: bool,
    extracted: &Vec<String>,
) -> (r: Result<UnpackOutcome, UnpackError>)
    ensures
        match r {
            Ok(o) => archive_exists && (if target_exists {
                o == UnpackOutcome::SkipExisting
            } else {
                extracted@.len() == 1 && (o matches UnpackOutcome::MoveTopLevel(d) && d@
                    == extracted@[0]@)
            }),
            Err(e) => {
                &&& (!archive_exists || (!target_exists && extracted@.len() != 1))
                &&& (!archive_exists ==> e is MissingArchive)
                &&& (archive_exists ==> e is NotSingleTopLevel)
            },
        },
{
    if !archive_exists {
        return Err(UnpackError::MissingArchive(archive_path.clone()));
    }
    if target_exists {
        return Ok(UnpackOutcome::SkipExisting);
    }
    if extracted.len() == 1 {
        Ok(UnpackOutcome::MoveTopLevel(extracted[0].clone()))
    } else {
        Err(UnpackError::NotSingleTopLevel(archive_path.clone()))
    }
}

} // verus!
