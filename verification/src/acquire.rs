//! Source acquisition: for every source node, decide what brings a
//! canonical archive into the cache — reuse, a streamed download
//! with a rolling digest, or a Git fetch followed by repackaging —
//! and judge a finished download against its declared digest.  The
//! unverified binary performs the network and process work that the
//! plans name.

use vstd::prelude::*;
use vstd::string::StringExecFns;

use crate::bundle::{spec_repo_prefix, ArchiveSource, GitSource};
use crate::paths::spec_join;
use crate::workspace::HasherKind;

verus! {

/// What can go wrong while acquiring sources.
#[derive(Debug, Clone, PartialEq)]
pub enum AcquireError {
    /// An archive source whose URL has no usable file name.
    URLError(String),
    /// The downloaded bytes hash to something else than declared.
    IntegrityError { url: String, expected: String, actual: String },
}

/// What to do about one archive source.
#[derive(Debug, Clone, PartialEq)]
pub enum ArchiveAction {
    /// The cache already holds the archive; nothing to fetch.
    UseCached,
    /// Stream the URL into the workspace, computing this digest.
    Download { url: String, hasher: HasherKind },
}

/// The plan for one archive source: whether to drop the cached copy
/// first, and what to do then.
#[derive(Debug, Clone, PartialEq)]
pub struct ArchivePlan {
    pub remove_cached: bool,
    pub action: ArchiveAction,
}

/// The digest a download of this archive must compute: the declared
/// one, preferring the stronger; with nothing declared, the stream
/// computes a fresh strong digest to record.
pub open spec fn spec_choose_hasher(a: ArchiveSource) -> HasherKind {
    if a.sha512 is Some {
        HasherKind::Sha512
    } else if a.sha256 is Some {
        HasherKind::Sha256
    } else {
        HasherKind::Sha512
    }
}

/// The digest string a download of this archive is held against.
pub open spec fn spec_declared_digest(a: ArchiveSource) -> Option<Seq<char>> {
    if a.sha512 is Some {
        Some(a.sha512->0@)
    } else if a.sha256 is Some {
        Some(a.sha256->0@)
    } else {
        None
    }
}

/// Which rolling digest to open the download stream with.
pub fn choose_hasher(a: &ArchiveSource) -> (r: HasherKind)
    ensures
        r == spec_choose_hasher(*a),
{
    if a.sha512.is_some() {
        HasherKind::Sha512
    } else if a.sha256.is_some() {
        HasherKind::Sha256
    } else {
        HasherKind::Sha512
    }
}

/// The plan for one archive source, given whether the cache already
/// holds its file.  With the cache warm and no forced clean, nothing
/// is downloaded: running acquisition twice does no further work.
pub fn plan_archive(a: &ArchiveSource, cache_has: bool, archive_clean: bool) -> (r: ArchivePlan)
    ensures
        r.remove_cached == archive_clean,
        cache_has && !archive_clean ==> r.action == ArchiveAction::UseCached,
        !(cache_has && !archive_clean) ==> (r.action matches ArchiveAction::Download {
            url,
            hasher,
        } && url@ == a.src@ && hasher == spec_choose_hasher(*a)),
{
    if cache_has && !archive_clean {
        ArchivePlan { remove_cached: archive_clean, action: ArchiveAction::UseCached }
    } else {
        ArchivePlan {
            remove_cached: archive_clean,
            action: ArchiveAction::Download { url: a.src.clone(), hasher: choose_hasher(a) },
        }
    }
}

/// What a judged download leaves behind: the archive moves into the
/// cache, and, when nothing was declared, the freshly computed
/// digest is recorded.
#[derive(Debug, Clone, PartialEq)]
pub struct DownloadAccept {
    pub record_digest: Option<String>,
}

/// Judges a finished download.  A declared digest that differs from
/// the observed one is refused, so nothing reaches the cache on a
/// mismatch; with no digest declared, the observed one is accepted
/// and recorded.
pub fn accept_download(a: &ArchiveSource, observed_hex: &str) -> (r: Result<
    DownloadAccept,
    AcquireError,
>)
    ensures
        match r {
            Ok(acc) => match spec_declared_digest(*a) {
                Some(d) => d == observed_hex@ && acc.record_digest is None,
                None => acc.record_digest matches Some(s) && s@ == observed_hex@,
            },
            Err(e) => spec_declared_digest(*a) matches Some(d) && d != observed_hex@ && (
            e matches AcquireError::IntegrityError { url, expected, actual } && url@ == a.src@
                && expected@ == d && actual@ == observed_hex@),
        },
{
    let declared: Option<&String> = match &a.sha512 {
        Some(d) => Some(d),
        None => match &a.sha256 {
            Some(d) => Some(d),
            None => None,
        },
    };
    match declared {
        Some(d) => {
            if crate::strutil::str_eq(d.as_str(), observed_hex) {
                Ok(DownloadAccept { record_digest: None })
            } else {
                Err(
                    AcquireError::IntegrityError {
                        url: a.src.clone(),
                        expected: d.clone(),
                        actual: String::from_str(observed_hex),
                    },
                )
            }
        },
        None => Ok(DownloadAccept { record_digest: Some(String::from_str(observed_hex)) }),
    }
}

/// What to do about one Git source.
#[derive(Debug, Clone, PartialEq)]
pub enum GitAction {
    /// Clone the repository into the download directory, then
    /// archive the checkout.
    Clone { clone_args: Vec<String>, archive_args: Vec<String>, archive_with_tar: bool },
    /// Ask the remote for a server-side archive.
    RemoteArchive { args: Vec<String> },
    /// Archive an already present checkout with `tar`, keeping the
    /// repository metadata.
    TarCheckout { args: Vec<String> },
    /// Archive an already present checkout with `git archive`.
    ArchiveCheckout { args: Vec<String> },
}

/// The plan for one Git source: whether to drop the cached archive
/// first, and what, if anything, to run then.
#[derive(Debug, Clone, PartialEq)]
pub struct GitPlan {
    pub remove_cached: bool,
    pub action: Option<GitAction>,
}

/// The cached archive file of a Git source, inside the cache
/// directory.
pub open spec fn spec_git_archive_path(g: GitSource, archives_dir: Seq<char>) -> Seq<char> {
    spec_join(archives_dir, spec_repo_prefix(g) + seq!['.'] + "tar.gz"@)
}

/// The argument list that archives a checkout with `tar`.
pub open spec fn spec_tar_args(g: GitSource, archives_dir: Seq<char>, args: Seq<String>) -> bool {
    &&& args.len() == 3
    &&& args[0]@ == "-czf"@
    &&& args[1]@ == spec_git_archive_path(g, archives_dir)
    &&& args[2]@ == spec_repo_prefix(g)
}

/// The argument list that archives a checkout with `git archive`.
pub open spec fn spec_git_archive_args(
    g: GitSource,
    archives_dir: Seq<char>,
    args: Seq<String>,
) -> bool {
    &&& args.len() == 5
    &&& args[0]@ == "archive"@
    &&& args[1]@ == "--format=tar.gz"@
    &&& args[2]@ == "--prefix="@ + spec_repo_prefix(g) + seq!['/']
    &&& args[3]@ == "--output="@ + spec_git_archive_path(g, archives_dir)
    &&& args[4]@ == "HEAD"@
}

/// The argument list that asks the remote for a server-side archive.
pub open spec fn spec_remote_archive_args(
    g: GitSource,
    archives_dir: Seq<char>,
    args: Seq<String>,
) -> bool {
    &&& args.len() == 6
    &&& args[0]@ == "archive"@
    &&& args[1]@ == "--format=tar.gz"@
    &&& args[2]@ == "--prefix="@ + spec_repo_prefix(g)
    &&& args[3]@ == "--output="@ + spec_git_archive_path(g, archives_dir)
    &&& args[4]@ == "--remote="@ + g.repository@
    &&& args[5]@ == (if g.tag is Some {
        g.tag->0@
    } else if g.branch is Some {
        g.branch->0@
    } else {
        "HEAD"@
    })
}

/// The argument list of the clone call: a single-branch clone of the
/// chosen tag or branch into the prefix directory.
pub open spec fn spec_clone_args(g: GitSource, args: Seq<String>) -> bool {
    let sel = if g.tag is Some {
        Some(g.tag->0@)
    } else if g.branch is Some {
        Some(g.branch->0@)
    } else {
        None::<Seq<char>>
    };
    match sel {
        Some(b) => {
            &&& args.len() == 6
            &&& args[0]@ == "clone"@
            &&& args[1]@ == "--single-branch"@
            &&& args[2]@ == "--branch"@
            &&& args[3]@ == b
            &&& args[4]@ == g.repository@
            &&& args[5]@ == spec_repo_prefix(g)
        },
        None => {
            &&& args.len() == 4
            &&& args[0]@ == "clone"@
            &&& args[1]@ == "--single-branch"@
            &&& args[2]@ == g.repository@
            &&& args[3]@ == spec_repo_prefix(g)
        },
    }
}

/// Builds the clone argument list.
pub fn git_clone_args(g: &GitSource) -> (r: Vec<String>)
    ensures
        spec_clone_args(*g, r@),
{
    let mut args: Vec<String> = Vec::new();
    args.push(String::from_str("clone"));
    args.push(String::from_str("--single-branch"));
    match &g.tag {
        Some(t) => {
            args.push(String::from_str("--branch"));
            args.push(t.clone());
        },
        None => {
            match &g.branch {
                Some(b) => {
                    args.push(String::from_str("--branch"));
                    args.push(b.clone());
                },
                None => {},
            }
        },
    }
    args.push(g.repository.clone());
    args.push(g.get_repo_prefix());
    args
}

/// The argument list that archives a checkout with `tar`, keeping
/// the repository metadata.
pub fn tar_archive_args(g: &GitSource, archives_dir: &str) -> (r: Vec<String>)
    ensures
        spec_tar_args(*g, archives_dir@, r@),
{
    let prefix = g.get_repo_prefix();
    let cache_base = crate::paths::path_join(archives_dir, prefix.as_str());
    let archive = crate::paths::add_extension(cache_base.as_str(), "tar.gz");
    let mut args: Vec<String> = Vec::new();
    args.push(String::from_str("-czf"));
    args.push(archive);
    args.push(prefix);
    proof {
        assert(args@[1]@ =~= spec_git_archive_path(*g, archives_dir@));
    }
    args
}

/// The argument list that archives a checkout with `git archive`:
/// a detached tree of the head, prefixed with the checkout name.
pub fn git_archive_args(g: &GitSource, archives_dir: &str) -> (r: Vec<String>)
    ensures
        spec_git_archive_args(*g, archives_dir@, r@),
{
    let prefix = g.get_repo_prefix();
    let cache_base = crate::paths::path_join(archives_dir, prefix.as_str());
    let archive = crate::paths::add_extension(cache_base.as_str(), "tar.gz");
    let mut prefix_arg = String::from_str("--prefix=");
    prefix_arg.append(prefix.as_str());
    prefix_arg.append("/");
    let mut output_arg = String::from_str("--output=");
    output_arg.append(archive.as_str());
    let mut args: Vec<String> = Vec::new();
    args.push(String::from_str("archive"));
    args.push(String::from_str("--format=tar.gz"));
    args.push(prefix_arg);
    args.push(output_arg);
    args.push(String::from_str("HEAD"));
    proof {
        reveal_strlit("/");
        assert(args@[2]@ =~= "--prefix="@ + spec_repo_prefix(*g) + seq!['/']);
        assert(args@[3]@ =~= "--output="@ + spec_git_archive_path(*g, archives_dir@));
    }
    args
}

/// The argument list that asks the remote for a server-side archive
/// of the chosen tag, branch or head.
pub fn git_remote_archive_args(g: &GitSource, archives_dir: &str) -> (r: Vec<String>)
    ensures
        spec_remote_archive_args(*g, archives_dir@, r@),
{
    let prefix = g.get_repo_prefix();
    let cache_base = crate::paths::path_join(archives_dir, prefix.as_str());
    let archive = crate::paths::add_extension(cache_base.as_str(), "tar.gz");
    let mut prefix_arg = String::from_str("--prefix=");
    prefix_arg.append(prefix.as_str());
    let mut output_arg = String::from_str("--output=");
    output_arg.append(archive.as_str());
    let mut remote_arg = String::from_str("--remote=");
    remote_arg.append(g.repository.as_str());
    let mut args: Vec<String> = Vec::new();
    args.push(String::from_str("archive"));
    args.push(String::from_str("--format=tar.gz"));
    args.push(prefix_arg);
    args.push(output_arg);
    args.push(remote_arg);
    match &g.tag {
        Some(t) => {
            args.push(t.clone());
        },
        None => {
            match &g.branch {
                Some(b) => {
                    args.push(b.clone());
                },
                None => {
                    args.push(String::from_str("HEAD"));
                },
            }
        },
    }
    proof {
        assert(args@[3]@ =~= "--output="@ + spec_git_archive_path(*g, archives_dir@));
    }
    args
}

/// The plan for one Git source, given whether the cache holds its
/// archive and whether a checkout already sits in the download
/// directory.  With the cached archive present and no forced clean,
/// nothing runs: running acquisition twice does no further work.
pub fn plan_git(
    g: &GitSource,
    archive_in_cache: bool,
    checkout_exists: bool,
    archive_clean: bool,
    archives_dir: &str,
) -> (r: GitPlan)
    ensures
        r.remove_cached == archive_clean,
        archive_in_cache && !archive_clean ==> r.action is None,
        !(archive_in_cache && !archive_clean) ==> match r.action {
            Some(a) => if checkout_exists {
                if g.must_stay_as_repo is Some {
                    a matches GitAction::TarCheckout { args } && spec_tar_args(
                        *g,
                        archives_dir@,
                        args@,
                    )
                } else {
                    a matches GitAction::ArchiveCheckout { args } && spec_git_archive_args(
                        *g,
                        archives_dir@,
                        args@,
                    )
                }
            } else {
                if g.archive is Some {
                    a matches GitAction::RemoteArchive { args } && spec_remote_archive_args(
                        *g,
                        archives_dir@,
                        args@,
                    )
                } else {
                    a matches GitAction::Clone { clone_args, archive_args, archive_with_tar } && {
                        &&& spec_clone_args(*g, clone_args@)
                        &&& archive_with_tar == (g.must_stay_as_repo is Some)
                        &&& (archive_with_tar ==> spec_tar_args(*g, archives_dir@, archive_args@))
                        &&& (!archive_with_tar ==> spec_git_archive_args(
                            *g,
                            archives_dir@,
                            archive_args@,
                        ))
                    }
                }
            },
            None => false,
        },
{
    if archive_in_cache && !archive_clean {
        GitPlan { remove_cached: archive_clean, action: None }
    } else if checkout_exists {
        if g.must_stay_as_repo.is_some() {
            GitPlan {
                remove_cached: archive_clean,
                action: Some(GitAction::TarCheckout { args: tar_archive_args(g, archives_dir) }),
            }
        } else {
            GitPlan {
                remove_cached: archive_clean,
                action: Some(
                    GitAction::ArchiveCheckout { args: git_archive_args(g, archives_dir) },
                ),
            }
        }
    } else if g.archive.is_some() {
        GitPlan {
            remove_cached: archive_clean,
            action: Some(
                GitAction::RemoteArchive { args: git_remote_archive_args(g, archives_dir) },
            ),
        }
    } else {
        let archive_with_tar = g.must_stay_as_repo.is_some();
        let archive_args = if archive_with_tar {
            tar_archive_args(g, archives_dir)
        } else {
            git_archive_args(g, archives_dir)
        };
        GitPlan {
            remove_cached: archive_clean,
            action: Some(
                GitAction::Clone { clone_args: git_clone_args(g), archive_args, archive_with_tar },
            ),
        }
    }
}

} // verus!
