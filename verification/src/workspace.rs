//! The workspace: the scratch directory layout one package build
//! owns, and the download file naming derived from source URLs.
//! The unverified binary creates the directories this module names.

use vstd::prelude::*;
use vstd::string::StringExecFns;

use crate::paths::{after_last_slash, spec_join};

verus! {

/// What can go wrong while working with a workspace.
#[derive(Debug, Clone, PartialEq)]
pub enum WorkspaceError {
    /// A filesystem error, carried as text from the edge.
    IOError(String),
    /// A URL without a usable file name at the end of its path.
    InvalidURLError(String),
}

/// Which rolling digest a download stream computes; chosen when the
/// download opens and sticky for the whole stream.
#[derive(Debug, Clone, Copy, PartialEq, Eq, Structural)]
pub enum HasherKind {
    Sha256,
    Sha512,
}

/// The path component of a parsed URL, when the string is a valid
/// URL; a function of the string alone.
pub uninterp spec fn url_path_view(s: Seq<char>) -> Option<Seq<char>>;

/// Relies on `url::Url::parse` and `url::Url::path`: the path
/// component of an absolute URL, which depends on the input string
/// alone; `None` exactly when the string does not parse.
#[verifier::external_body]
pub fn url_path(s: &str) -> (r: Option<String>)
    ensures
        match r {
            Some(p) => url_path_view(s@) == Some(p@),
            None => url_path_view(s@) == None::<Seq<char>>,
        },
{
    match url::Url::parse(s) {
        Ok(u) => Some(u.path().to_string()),
        Err(_) => None,
    }
}

/// The file name a URL's resource carries: what follows the last
/// separator of its path.
pub open spec fn url_file_name(url: Seq<char>) -> Option<Seq<char>> {
    match url_path_view(url) {
        Some(p) => if after_last_slash(p).len() > 0 {
            Some(after_last_slash(p))
        } else {
            None
        },
        None => None,
    }
}

/// A workspace rooted at one directory, with fixed subdirectories
/// for downloads, the build tree, the prototype tree and the
/// manifests.
#[derive(Debug, Clone, PartialEq)]
pub struct Workspace {
    pub path: String,
}

impl Workspace {
    /// A workspace at the given root.
    pub fn new(path: String) -> (r: Self)
        ensures
            r.path == path,
    {
        Workspace { path }
    }

    /// The transient download directory; the caller creates it.
    pub fn get_or_create_download_dir(&self) -> (r: String)
        ensures
            r@ == spec_join(self.path@, "downloads"@),
    {
        crate::paths::path_join(self.path.as_str(), "downloads")
    }

    /// The build tree that sources unpack into; the caller creates it.
    pub fn get_or_create_build_dir(&self) -> (r: String)
        ensures
            r@ == spec_join(self.path@, "build"@),
    {
        crate::paths::path_join(self.path.as_str(), "build")
    }

    /// The prototype tree that installs land in; the caller creates it.
    pub fn get_or_create_prototype_dir(&self) -> (r: String)
        ensures
            r@ == spec_join(self.path@, "proto"@),
    {
        crate::paths::path_join(self.path.as_str(), "proto")
    }

    /// The manifest directory; the caller creates it.
    pub fn get_or_create_manifest_dir(&self) -> (r: String)
        ensures
            r@ == spec_join(self.path@, "manifests"@),
    {
        crate::paths::path_join(self.path.as_str(), "manifests")
    }

    /// The workspace's name: the last segment of its root path.
    pub fn get_name(&self) -> (r: String)
        ensures
            r@ == after_last_slash(self.path@),
    {
        crate::paths::tail_after_last_slash(self.path.as_str())
    }

    /// Where a download of the given URL lands: the URL's file name
    /// inside the download directory.  A URL that does not parse, or
    /// whose path ends in a separator, is refused.
    pub fn get_file_path(&self, url: &str) -> (r: Result<String, WorkspaceError>)
        ensures
            match r {
                Ok(p) => url_file_name(url@) matches Some(f) && p@ == spec_join(
                    spec_join(self.path@, "downloads"@),
                    f,
                ),
                Err(e) => url_file_name(url@) is None && e is InvalidURLError,
            },
    {
        let path = match url_path(url) {
            Some(p) => p,
            None => {
                return Err(WorkspaceError::InvalidURLError(String::from_str(url)));
            },
        };
        let file_name = crate::paths::tail_after_last_slash(path.as_str());
        if file_name.unicode_len() == 0 {
            return Err(WorkspaceError::InvalidURLError(String::from_str(url)));
        }
        let dl = self.get_or_create_download_dir();
        Ok(crate::paths::path_join(dl.as_str(), file_name.as_str()))
    }
}

} // verus!
