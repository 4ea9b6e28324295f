//! Process-wide settings: the current workspace, the search path the
//! build tools run with, and where workspaces live.  Loading and
//! saving the settings file is the unverified binary's work; the
//! decisions over the loaded values live here.

use vstd::prelude::*;
use vstd::string::StringExecFns;

use crate::paths::spec_join;
use crate::workspace::Workspace;

verus! {

/// A stored GitHub token with its lifetime details.
#[derive(Debug, Clone, PartialEq)]
pub struct GitHubToken {
    pub access_token: String,
    pub refresh_token: Option<String>,
    pub token_type: String,
    pub scope: Option<Vec<String>>,
    pub expires_in: Option<u64>,
}

/// The persisted settings.
#[derive(Debug, Clone, PartialEq)]
pub struct Settings {
    pub current: Option<String>,
    pub base_path: Option<String>,
    pub output_dir: Option<String>,
    pub github_token: Option<GitHubToken>,
    pub search_path: Option<Vec<String>>,
}

/// The default search path of the build tools.
pub fn default_search_path() -> (r: Vec<String>)
    ensures
        r@.len() == 5,
        r@[0]@ == "/opt/solarm/bin"@,
        r@[1]@ == "/usr/gnu/bin"@,
        r@[2]@ == "/usr/bin"@,
        r@[3]@ == "/usr/sbin"@,
        r@[4]@ == "/sbin"@,
{
    let mut v: Vec<String> = Vec::new();
    v.push(String::from_str("/opt/solarm/bin"));
    v.push(String::from_str("/usr/gnu/bin"));
    v.push(String::from_str("/usr/bin"));
    v.push(String::from_str("/usr/sbin"));
    v.push(String::from_str("/sbin"));
    v
}

impl Settings {
    /// Fresh settings with nothing set.
    pub fn new() -> (r: Self)
        ensures
            r.current is None,
            r.base_path is None,
            r.output_dir is None,
            r.github_token is None,
            r.search_path is None,
    {
        Settings {
            current: None,
            base_path: None,
            output_dir: None,
            github_token: None,
            search_path: None,
        }
    }

    /// The configured output directory name, or the stock one.
    pub fn get_output_dir(&self) -> (r: String)
        ensures
            r@ == match self.output_dir {
                Some(o) => o@,
                None => "output"@,
            },
    {
        match &self.output_dir {
            Some(o) => o.clone(),
            None => String::from_str("output"),
        }
    }

    /// The configured tool search path, or the stock one.
    pub fn get_search_path(&self) -> (r: Vec<String>)
        ensures
            match self.search_path {
                Some(sp) => r@.len() == sp@.len() && (forall|i: int|
                    0 <= i < sp@.len() ==> (#[trigger] r@[i])@ == sp@[i]@),
                None => {
                    &&& r@.len() == 5
                    &&& r@[0]@ == "/opt/solarm/bin"@
                    &&& r@[1]@ == "/usr/gnu/bin"@
                    &&& r@[2]@ == "/usr/bin"@
                    &&& r@[3]@ == "/usr/sbin"@
                    &&& r@[4]@ == "/sbin"@
                },
            },
    {
        match &self.search_path {
            Some(sp) => {
                let mut v: Vec<String> = Vec::new();
                let mut i: usize = 0;
                while i < sp.len()
                    invariant
                        i <= sp@.len(),
                        v@.len() == i,
                        forall|j: int| 0 <= j < i ==> (#[trigger] v@[j])@ == sp@[j]@,
                    decreases sp@.len() - i,
                {
                    v.push(sp[i].clone());
                    i += 1;
                }
                v
            },
            None => default_search_path(),
        }
    }

    /// Adds a directory to the search path.
    pub fn add_path_to_search(&mut self, value: String)
        ensures
            final(self).search_path matches Some(v) && v@ == (match old(self).search_path {
                Some(o) => o@.push(value),
                None => seq![value],
            }),
            final(self).current == old(self).current,
            final(self).base_path == old(self).base_path,
            final(self).output_dir == old(self).output_dir,
            final(self).github_token == old(self).github_token,
    {
        match &mut self.search_path {
            Some(path) => {
                path.push(value);
            },
            None => {
                let mut v: Vec<String> = Vec::new();
                v.push(value);
                self.search_path = Some(v);
            },
        }
    }

    /// Removes every entry equal to the value from the search path;
    /// with no search path configured yet, records the value as the
    /// path.
    pub fn remove_path_from_search(&mut self, value: String)
        ensures
            final(self).search_path matches Some(v) && (match old(self).search_path {
                Some(o) => v@.map_values(|s: String| s@) == o@.map_values(
                    |s: String| s@,
                ).filter(|s: Seq<char>| s != value@),
                None => v@ == seq![value],
            }),
            final(self).current == old(self).current,
            final(self).base_path == old(self).base_path,
            final(self).output_dir == old(self).output_dir,
            final(self).github_token == old(self).github_token,
    {
        let path = match &self.search_path {
            Some(p) => p,
            None => {
                let mut v: Vec<String> = Vec::new();
                v.push(value);
                self.search_path = Some(v);
                return ;
            },
        };
        let ghost oviews = path@.map_values(|s: String| s@);
        let mut kept: Vec<String> = Vec::new();
        let mut i: usize = 0;
        proof {
            assert(oviews.take(0).filter(|s: Seq<char>| s != value@) =~= Seq::<Seq<char>>::empty());
            assert(kept@.map_values(|s: String| s@) =~= Seq::<Seq<char>>::empty());
        }
        while i < path.len()
            invariant
                i <= path@.len(),
                oviews == path@.map_values(|s: String| s@),
                kept@.map_values(|s: String| s@) == oviews.take(i as int).filter(
                    |s: Seq<char>| s != value@,
                ),
            decreases path@.len() - i,
        {
            proof {
                assert(oviews.take(i + 1).drop_last() =~= oviews.take(i as int));
                reveal_with_fuel(Seq::<Seq<char>>::filter, 2);
            }
            if !crate::strutil::str_eq(path[i].as_str(), value.as_str()) {
                let kept_item = path[i].clone();
                kept.push(kept_item);
                proof {
                    assert(kept@.map_values(|s: String| s@) =~= kept@.drop_last().map_values(
                        |s: String| s@,
                    ).push(kept@.last()@));
                }
            }
            i += 1;
        }
        proof {
            assert(oviews.take(path@.len() as int) =~= oviews);
        }
        self.search_path = Some(kept);
    }

    /// The workspace of the given name, under the configured base
    /// path or the data directory.
    pub fn get_workspace_from(&self, data_dir: &str, name: &str) -> (r: Workspace)
        ensures
            r.path@ == spec_join(
                match self.base_path {
                    Some(b) => b@,
                    None => data_dir@,
                },
                name@,
            ),
    {
        let base = match &self.base_path {
            Some(b) => b.clone(),
            None => String::from_str(data_dir),
        };
        Workspace::new(crate::paths::path_join(base.as_str(), name))
    }

    /// The current workspace: the configured one, or the stock name.
    pub fn get_current_wks(&self, data_dir: &str) -> (r: Workspace)
        ensures
            r.path@ == spec_join(
                match self.base_path {
                    Some(b) => b@,
                    None => data_dir@,
                },
                match self.current {
                    Some(c) => c@,
                    None => "wks"@,
                },
            ),
    {
        let current = match &self.current {
            Some(c) => c.clone(),
            None => String::from_str("wks"),
        };
        self.get_workspace_from(data_dir, current.as_str())
    }

    /// Switches the current workspace to the given name and hands
    /// the workspace back; the caller persists the settings.
    pub fn change_current_workspace(&mut self, data_dir: &str, name: &str) -> (r: Workspace)
        ensures
            final(self).current matches Some(c) && c@ == name@,
            final(self).base_path == old(self).base_path,
            final(self).output_dir == old(self).output_dir,
            final(self).github_token == old(self).github_token,
            final(self).search_path == old(self).search_path,
            r.path@ == spec_join(data_dir@, name@),
    {
        self.current = Some(String::from_str(name));
        Workspace::new(crate::paths::path_join(data_dir, name))
    }
}

/// The workspaces to offer: what the data directory holds, or the
/// stock name when it holds nothing yet.
pub fn list_workspaces(entries: Vec<String>) -> (r: Vec<String>)
    ensures
        entries@.len() == 0 ==> r@.len() == 1 && r@[0]@ == "wks"@,
        entries@.len() > 0 ==> r == entries,
{
    if entries.len() == 0 {
        let mut v: Vec<String> = Vec::new();
        v.push(String::from_str("wks"));
        v
    } else {
        entries
    }
}

} // verus!
