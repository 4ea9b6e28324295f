//! The metadata record the repository information command emits,
//! assembled through a builder that refuses to finish while a
//! required field is missing.

use vstd::prelude::*;
use vstd::string::StringExecFns;

verus! {

/// What can go wrong while assembling the metadata.
#[derive(Debug, Clone, PartialEq)]
pub enum Error {
    /// A builder field that must be set before `build` was not.
    UninitializedField(String),
    /// A version string that is no semantic version.
    SemVerError(String),
}

/// The machine families the repository serves.
#[derive(Debug, Clone, Copy, PartialEq, Eq, Structural)]
pub enum SupportedArchitectures {
    AMD64,
    ARM64,
    SPARC64,
}

impl Default for SupportedArchitectures {
    /// The stock architecture.
    fn default() -> (r: Self)
        ensures
            r == SupportedArchitectures::AMD64,
    {
        SupportedArchitectures::AMD64
    }
}

/// The metadata record of one package.
#[derive(Debug, Clone, PartialEq)]
pub struct Metadata {
    pub maintainers: Vec<String>,
    pub summary: String,
    pub source_name: String,
    pub fmri: String,
    pub project_name: String,
    pub arch: SupportedArchitectures,
    pub homepages: Vec<String>,
    pub licenses: Vec<String>,
    pub source_links: Vec<String>,
    pub categories: Vec<String>,
    pub version: String,
}

/// Assembles a [`Metadata`] record from optional inputs.
#[derive(Debug, Clone, PartialEq)]
pub struct MetadataBuilder {
    pub maintainers: Option<Vec<String>>,
    pub summary: Option<String>,
    pub source_name: Option<String>,
    pub fmri: Option<String>,
    pub project_name: Option<String>,
    pub arch: Option<SupportedArchitectures>,
    pub homepages: Option<Vec<String>>,
    pub licenses: Option<Vec<String>>,
    pub source_links: Option<Vec<String>>,
    pub categories: Option<Vec<String>>,
    pub version: Option<String>,
}

impl Default for MetadataBuilder {
    /// A builder with nothing set.
    fn default() -> (r: Self)
        ensures
            r.maintainers is None,
            r.summary is None,
            r.source_name is None,
            r.fmri is None,
            r.project_name is None,
            r.arch is None,
            r.homepages is None,
            r.licenses is None,
            r.source_links is None,
            r.categories is None,
            r.version is None,
    {
        MetadataBuilder {
            maintainers: None,
            summary: None,
            source_name: None,
            fmri: None,
            project_name: None,
            arch: None,
            homepages: None,
            licenses: None,
            source_links: None,
            categories: None,
            version: None,
        }
    }
}

impl MetadataBuilder {
    /// Sets the one-line summary.
    pub fn summary(self, value: &str) -> (r: Self)
        ensures
            r.summary matches Some(s) && s@ == value@,
            (MetadataBuilder { summary: self.summary, ..r }) == self,
    {
        MetadataBuilder { summary: Some(String::from_str(value)), ..self }
    }

    /// Sets the source package name.
    pub fn source_name(self, value: &str) -> (r: Self)
        ensures
            r.source_name matches Some(s) && s@ == value@,
            (MetadataBuilder { source_name: self.source_name, ..r }) == self,
    {
        MetadataBuilder { source_name: Some(String::from_str(value)), ..self }
    }

    /// Sets the package identity string.
    pub fn fmri(self, value: &str) -> (r: Self)
        ensures
            r.fmri matches Some(s) && s@ == value@,
            (MetadataBuilder { fmri: self.fmri, ..r }) == self,
    {
        MetadataBuilder { fmri: Some(String::from_str(value)), ..self }
    }

    /// Sets the upstream project name.
    pub fn project_name(self, value: &str) -> (r: Self)
        ensures
            r.project_name matches Some(s) && s@ == value@,
            (MetadataBuilder { project_name: self.project_name, ..r }) == self,
    {
        MetadataBuilder { project_name: Some(String::from_str(value)), ..self }
    }

    /// Sets the version.
    pub fn version(self, value: &str) -> (r: Self)
        ensures
            r.version matches Some(s) && s@ == value@,
            (MetadataBuilder { version: self.version, ..r }) == self,
    {
        MetadataBuilder { version: Some(String::from_str(value)), ..self }
    }

    /// Sets the architecture.
    pub fn arch(self, value: SupportedArchitectures) -> (r: Self)
        ensures
            r.arch == Some(value),
            (MetadataBuilder { arch: self.arch, ..r }) == self,
    {
        MetadataBuilder { arch: Some(value), ..self }
    }

    /// Sets the maintainer list.
    pub fn maintainers(self, value: Vec<String>) -> (r: Self)
        ensures
            r.maintainers == Some(value),
            (MetadataBuilder { maintainers: self.maintainers, ..r }) == self,
    {
        MetadataBuilder { maintainers: Some(value), ..self }
    }

    /// Sets the homepage list.
    pub fn homepages(self, value: Vec<String>) -> (r: Self)
        ensures
            r.homepages == Some(value),
            (MetadataBuilder { homepages: self.homepages, ..r }) == self,
    {
        MetadataBuilder { homepages: Some(value), ..self }
    }

    /// Sets the license list.
    pub fn licenses(self, value: Vec<String>) -> (r: Self)
        ensures
            r.licenses == Some(value),
            (MetadataBuilder { licenses: self.licenses, ..r }) == self,
    {
        MetadataBuilder { licenses: Some(value), ..self }
    }

    /// Sets the source link list.
    pub fn source_links(self, value: Vec<String>) -> (r: Self)
        ensures
            r.source_links == Some(value),
            (MetadataBuilder { source_links: self.source_links, ..r }) == self,
    {
        MetadataBuilder { source_links: Some(value), ..self }
    }

    /// Sets the category list.
    pub fn categories(self, value: Vec<String>) -> (r: Self)
        ensures
            r.categories == Some(value),
            (MetadataBuilder { categories: self.categories, ..r }) == self,
    {
        MetadataBuilder { categories: Some(value), ..self }
    }

    /// Appends one maintainer, starting the list when none is set.
    pub fn add_maintainer(&mut self, value: &str)
        ensures
            final(self).maintainers matches Some(v) && v@.len() == (match old(self).maintainers {
                Some(o) => (o@.len() + 1) as int,
                None => 1int,
            }) && v@.last()@ == value@ && (match old(self).maintainers {
                Some(o) => forall|i: int| 0 <= i < o@.len() ==> #[trigger] v@[i] == o@[i],
                None => true,
            }),
            (MetadataBuilder { maintainers: old(self).maintainers, ..*final(self) }) == *old(self),
    {
        match &mut self.maintainers {
            Some(v) => {
                v.push(String::from_str(value));
            },
            None => {
                let mut v: Vec<String> = Vec::new();
                v.push(String::from_str(value));
                self.maintainers = Some(v);
            },
        }
    }

    /// Appends one homepage, starting the list when none is set.
    pub fn add_homepage(&mut self, value: &str)
        ensures
            final(self).homepages matches Some(v) && v@.len() == (match old(self).homepages {
                Some(o) => (o@.len() + 1) as int,
                None => 1int,
            }) && v@.last()@ == value@ && (match old(self).homepages {
                Some(o) => forall|i: int| 0 <= i < o@.len() ==> #[trigger] v@[i] == o@[i],
                None => true,
            }),
            (MetadataBuilder { homepages: old(self).homepages, ..*final(self) }) == *old(self),
    {
        match &mut self.homepages {
            Some(v) => {
                v.push(String::from_str(value));
            },
            None => {
                let mut v: Vec<String> = Vec::new();
                v.push(String::from_str(value));
                self.homepages = Some(v);
            },
        }
    }

    /// Appends one license, starting the list when none is set.
    pub fn add_license(&mut self, value: &str)
        ensures
            final(self).licenses matches Some(v) && v@.len() == (match old(self).licenses {
                Some(o) => (o@.len() + 1) as int,
                None => 1int,
            }) && v@.last()@ == value@ && (match old(self).licenses {
                Some(o) => forall|i: int| 0 <= i < o@.len() ==> #[trigger] v@[i] == o@[i],
                None => true,
            }),
            (MetadataBuilder { licenses: old(self).licenses, ..*final(self) }) == *old(self),
    {
        match &mut self.licenses {
            Some(v) => {
                v.push(String::from_str(value));
            },
            None => {
                let mut v: Vec<String> = Vec::new();
                v.push(String::from_str(value));
                self.licenses = Some(v);
            },
        }
    }

    /// Appends one category, starting the list when none is set.
    pub fn add_category(&mut self, value: &str)
        ensures
            final(self).categories matches Some(v) && v@.len() == (match old(self).categories {
                Some(o) => (o@.len() + 1) as int,
                None => 1int,
            }) && v@.last()@ == value@ && (match old(self).categories {
                Some(o) => forall|i: int| 0 <= i < o@.len() ==> #[trigger] v@[i] == o@[i],
                None => true,
            }),
            (MetadataBuilder { categories: old(self).categories, ..*final(self) }) == *old(self),
    {
        match &mut self.categories {
            Some(v) => {
                v.push(String::from_str(value));
            },
            None => {
                let mut v: Vec<String> = Vec::new();
                v.push(String::from_str(value));
                self.categories = Some(v);
            },
        }
    }

    /// Finishes the record.  The summary, source name, identity,
    /// project name, homepages, source links, categories and version
    /// must have been set; the maintainers, licenses and the
    /// architecture default.
    pub fn build(self) -> (r: Result<Metadata, Error>)
        ensures
            match r {
                Ok(m) => {
                    &&& self.summary matches Some(x) && m.summary == x
                    &&& self.source_name matches Some(x) && m.source_name == x
                    &&& self.fmri matches Some(x) && m.fmri == x
                    &&& self.project_name matches Some(x) && m.project_name == x
                    &&& self.homepages matches Some(x) && m.homepages == x
                    &&& self.source_links matches Some(x) && m.source_links == x
                    &&& self.categories matches Some(x) && m.categories == x
                    &&& self.version matches Some(x) && m.version == x
                    &&& m.maintainers@ == (match self.maintainers {
                        Some(x) => x@,
                        None => Seq::<String>::empty(),
                    })
                    &&& m.licenses@ == (match self.licenses {
                        Some(x) => x@,
                        None => Seq::<String>::empty(),
                    })
                    &&& m.arch == (match self.arch {
                        Some(a) => a,
                        None => SupportedArchitectures::AMD64,
                    })
                },
                Err(_) => {
                    ||| self.summary is None
                    ||| self.source_name is None
                    ||| self.fmri is None
                    ||| self.project_name is None
                    ||| self.homepages is None
                    ||| self.source_links is None
                    ||| self.categories is None
                    ||| self.version is None
                },
            },
    {
        let summary = match self.summary {
            Some(x) => x,
            None => {
                return Err(Error::UninitializedField(String::from_str("summary")));
            },
        };
        let source_name = match self.source_name {
            Some(x) => x,
            None => {
                return Err(Error::UninitializedField(String::from_str("source_name")));
            },
        };
        let fmri = match self.fmri {
            Some(x) => x,
            None => {
                return Err(Error::UninitializedField(String::from_str("fmri")));
            },
        };
        let project_name = match self.project_name {
            Some(x) => x,
            None => {
                return Err(Error::UninitializedField(String::from_str("project_name")));
            },
        };
        let homepages = match self.homepages {
            Some(x) => x,
            None => {
                return Err(Error::UninitializedField(String::from_str("homepages")));
            },
        };
        let source_links = match self.source_links {
            Some(x) => x,
            None => {
                return Err(Error::UninitializedField(String::from_str("source_links")));
            },
        };
        let categories = match self.categories {
            Some(x) => x,
            None => {
                return Err(Error::UninitializedField(String::from_str("categories")));
            },
        };
        let version = match self.version {
            Some(x) => x,
            None => {
                return Err(Error::UninitializedField(String::from_str("version")));
            },
        };
        let maintainers = match self.maintainers {
            Some(x) => x,
            None => Vec::new(),
        };
        let licenses = match self.licenses {
            Some(x) => x,
            None => Vec::new(),
        };
        let arch = match self.arch {
            Some(a) => a,
            None => SupportedArchitectures::AMD64,
        };
        Ok(
            Metadata {
                maintainers,
                summary,
                source_name,
                fmri,
                project_name,
                arch,
                homepages,
                licenses,
                source_links,
                categories,
                version,
            },
        )
    }
}

} // verus!
