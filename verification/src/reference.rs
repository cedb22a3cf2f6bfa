//! What a dependency asks of a repository: where it lives, which point of its
//! history is meant, and the exact revision once one has been pinned.

use crate::git_url::GitUrl;
use vstd::prelude::*;
use vstd::string::StringExecFns;

verus! {

/// The point of a repository's history that is asked for. It states an
/// intent; the revision it stands for is found by resolving it.
#[derive(Debug, PartialEq, Eq)]
pub enum GitReference {
    Branch(String),
    Tag(String),
    Rev(String),
}

impl Clone for GitReference {
    fn clone(&self) -> (r: Self)
        ensures
            r == *self,
    {
        match self {
            GitReference::Branch(s) => GitReference::Branch(s.clone()),
            GitReference::Tag(s) => GitReference::Tag(s.clone()),
            GitReference::Rev(s) => GitReference::Rev(s.clone()),
        }
    }
}

/// The branch that is meant where none is named.
pub open spec fn default_branch() -> Seq<char> {
    "master"@
}

impl GitReference {
    /// The name of the branch or tag, or the revision as written.
    pub open spec fn name(self) -> Seq<char> {
        match self {
            GitReference::Branch(s) => s@,
            GitReference::Tag(s) => s@,
            GitReference::Rev(s) => s@,
        }
    }

    /// The reference as shown to a user: its kind, an equals sign and its
    /// name. The default branch is not shown.
    pub open spec fn ref_string(self) -> Option<Seq<char>> {
        match self {
            GitReference::Branch(s) => if s@ == default_branch() {
                None
            } else {
                Some("branch="@ + s@)
            },
            GitReference::Tag(s) => Some("tag="@ + s@),
            GitReference::Rev(s) => Some("rev="@ + s@),
        }
    }

    /// The name of the branch or tag, or the revision as written.
    pub fn as_str(&self) -> (r: &str)
        ensures
            r@ == self.name(),
    {
        match self {
            GitReference::Branch(s) => s.as_str(),
            GitReference::Tag(s) => s.as_str(),
            GitReference::Rev(s) => s.as_str(),
        }
    }

    /// The reference as shown to a user, if it is shown at all.
    pub fn to_ref_string(&self) -> (r: Option<String>)
        ensures
            match r {
                Some(s) => self.ref_string() == Some(s@),
                None => self.ref_string().is_none(),
            },
    {
        match self {
            GitReference::Branch(s) => {
                if crate::text::str_eq(s.as_str(), "master") {
                    None
                } else {
                    Some(String::from_str("branch=").concat(s.as_str()))
                }
            },
            GitReference::Tag(s) => Some(String::from_str("tag=").concat(s.as_str())),
            GitReference::Rev(s) => Some(String::from_str("rev=").concat(s.as_str())),
        }
    }
}

/// A revision that a reference was resolved to. What it holds is the
/// repository's business; here it is carried and compared.
#[derive(Debug, PartialEq, Eq)]
pub struct GitRevision {
    pub id: String,
}

impl View for GitRevision {
    type V = Seq<char>;

    open spec fn view(&self) -> Seq<char> {
        self.id@
    }
}

impl Clone for GitRevision {
    fn clone(&self) -> (r: Self)
        ensures
            r == *self,
    {
        GitRevision { id: self.id.clone() }
    }
}

impl GitRevision {
    /// The revision as a string.
    pub fn to_string(&self) -> (r: String)
        ensures
            r@ == self@,
            r == self.id,
    {
        self.id.clone()
    }
}

/// Where a source lives and what of it is meant.
///
/// A source in a git repository has a reference. Once a revision has been
/// pinned, `precise` holds it, and it is used in place of the reference.
#[derive(Debug, PartialEq, Eq)]
pub struct SourceId {
    pub url: GitUrl,
    pub reference: Option<GitReference>,
    pub precise: Option<String>,
}

impl Clone for SourceId {
    fn clone(&self) -> (r: Self)
        ensures
            r == *self,
    {
        SourceId {
            url: self.url.clone(),
            reference: match &self.reference {
                Some(reference) => Some(reference.clone()),
                None => None,
            },
            precise: match &self.precise {
                Some(precise) => Some(precise.clone()),
                None => None,
            },
        }
    }
}

impl SourceId {
    /// The reference by which the source is resolved: the pinned revision
    /// where there is one, the stored reference otherwise.
    pub open spec fn resolved_reference(self) -> GitReference
        recommends
            self.reference.is_some(),
    {
        match self.precise {
            Some(precise) => GitReference::Rev(precise),
            None => self.reference.unwrap(),
        }
    }

    /// A source in the repository at `url`, with nothing pinned.
    pub fn for_git(url: &GitUrl, reference: GitReference) -> (r: SourceId)
        ensures
            r == (SourceId { url: *url, reference: Some(reference), precise: None }),
    {
        SourceId { url: url.clone(), reference: Some(reference), precise: None }
    }

    /// Whether the source lives in a git repository.
    pub fn is_git(&self) -> (r: bool)
        ensures
            r == self.reference.is_some(),
    {
        self.reference.is_some()
    }

    /// The URL of the repository.
    pub fn url(&self) -> (r: &GitUrl)
        ensures
            *r == self.url,
    {
        &self.url
    }

    /// The pinned revision, if one is pinned.
    pub fn precise(&self) -> (r: Option<&str>)
        ensures
            match r {
                Some(s) => self.precise.is_some() && s@ == self.precise.unwrap()@,
                None => self.precise.is_none(),
            },
    {
        match &self.precise {
            Some(s) => Some(s.as_str()),
            None => None,
        }
    }

    /// The reference that was asked for, if the source is a git source.
    pub fn git_reference(&self) -> (r: Option<&GitReference>)
        ensures
            match r {
                Some(reference) => self.reference == Some(*reference),
                None => self.reference.is_none(),
            },
    {
        match &self.reference {
            Some(reference) => Some(reference),
            None => None,
        }
    }

    /// The same source with `precise` in place of what was pinned before.
    pub fn with_precise(&self, precise: Option<String>) -> (r: SourceId)
        ensures
            r == (SourceId { precise, ..*self }),
    {
        SourceId {
            url: self.url.clone(),
            reference: match &self.reference {
                Some(reference) => Some(reference.clone()),
                None => None,
            },
            precise,
        }
    }

    /// The reference by which the source is resolved.
    pub fn reference(&self) -> (r: GitReference)
        requires
            self.reference.is_some(),
        ensures
            r == self.resolved_reference(),
    {
        match &self.precise {
            Some(precise) => GitReference::Rev(precise.clone()),
            None => self.reference.as_ref().unwrap().clone(),
        }
    }
}

} // verus!
