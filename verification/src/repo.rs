//! The repository view: what of a repository may be shown, and how a raw
//! record is projected into it.

use vstd::prelude::*;

use crate::error::{ProjectionError, RequiredField};
use crate::raw::{clone_text, text_of, RawRepo, RawRepoView};

verus! {

/// The name under which every private repository is shown.
pub const REDACTED_NAME: &'static str = "*****";

/// The address that stands for a repository without one.
pub const PLACEHOLDER_URL: &'static str = "http://240.0.0.0";

/// The link text of a repository without an address.
pub const PRIVATE_MARKER: &'static str = "[private repo]";

/// Whether a repository is a work of its own or a fork of another one.
#[derive(Debug, Clone, Copy, PartialEq, Eq, Structural)]
pub enum RepoType {
    Source,
    Fork,
}

impl RepoType {
    /// The label of a classification: `Source` or `Fork`.
    pub open spec fn label(self) -> Seq<char> {
        match self {
            RepoType::Source => "Source"@,
            RepoType::Fork => "Fork"@,
        }
    }

    /// The classification that a raw fork flag stands for.
    pub open spec fn of_fork(fork: bool) -> RepoType {
        if fork {
            RepoType::Fork
        } else {
            RepoType::Source
        }
    }

    /// Renders the classification as its label.
    pub fn to_string(&self) -> (s: String)
        ensures
            s@ == self.label(),
    {
        match self {
            RepoType::Source => String::from_str("Source"),
            RepoType::Fork => String::from_str("Fork"),
        }
    }
}

/// A repository as it may be shown. The fields are private so that a value,
/// once projected, cannot be altered: a private repository never carries its
/// real name or its address.
#[derive(Debug, PartialEq, Eq)]
pub struct UserRepo {
    id: u64,
    url: Option<String>,
    name: String,
    repo_type: RepoType,
    description: Option<String>,
    language: Option<String>,
    private: bool,
    archived: bool,
}

/// The mathematical content of a [`UserRepo`].
pub struct UserRepoView {
    pub id: u64,
    pub url: Option<Seq<char>>,
    pub name: Seq<char>,
    pub repo_type: RepoType,
    pub description: Option<Seq<char>>,
    pub language: Option<Seq<char>>,
    pub private: bool,
    pub archived: bool,
}

impl UserRepoView {
    /// The redaction rule: a private repository shows neither address nor
    /// name.
    pub open spec fn redacted(self) -> bool {
        self.private ==> self.url is None && self.name == REDACTED_NAME@
    }

    /// The address as text, or the placeholder where there is none.
    pub open spec fn url_text(self) -> Seq<char> {
        match self.url {
            Some(u) => u,
            None => PLACEHOLDER_URL@,
        }
    }

    /// The link to the repository: an anchor that points at the address and
    /// is labelled with the name, or the marker where there is no address.
    pub open spec fn anchor(self) -> Seq<char> {
        match self.url {
            Some(u) => "<a href=\""@ + u + "\">"@ + self.name + "</a>"@,
            None => PRIVATE_MARKER@,
        }
    }

    /// The one-line summary of the repository.
    pub open spec fn summary(self) -> Seq<char> {
        self.name + " (private? "@ + (if self.private {
            "true"@
        } else {
            "false"@
        }) + "), url: "@ + self.url_text()
    }
}

impl View for UserRepo {
    type V = UserRepoView;

    closed spec fn view(&self) -> UserRepoView {
        UserRepoView {
            id: self.id,
            url: text_of(self.url),
            name: self.name@,
            repo_type: self.repo_type,
            description: text_of(self.description),
            language: text_of(self.language),
            private: self.private,
            archived: self.archived,
        }
    }
}

/// The views of a sequence of repositories.
pub open spec fn repo_views(repos: Seq<UserRepo>) -> Seq<UserRepoView> {
    repos.map_values(|repo: UserRepo| repo@)
}

/// What projecting a raw record yields. The privacy flag is looked at first,
/// then the fork flag; a record without an archive flag counts as not
/// archived.
pub open spec fn projected(raw: RawRepoView) -> Result<UserRepoView, ProjectionError> {
    if raw.private is None {
        Err(ProjectionError::MissingField(RequiredField::Private))
    } else if raw.fork is None {
        Err(ProjectionError::MissingField(RequiredField::Fork))
    } else {
        let private = raw.private->0;
        Ok(
            UserRepoView {
                id: raw.id,
                url: if private {
                    None
                } else {
                    raw.html_url
                },
                name: if private {
                    REDACTED_NAME@
                } else {
                    raw.name
                },
                repo_type: RepoType::of_fork(raw.fork->0),
                description: raw.description,
                language: raw.language,
                private,
                archived: raw.archived == Some(true),
            },
        )
    }
}

/// Projects a raw record into a view, or fails where a flag that decides the
/// redaction is absent. The real name and address of a private repository
/// are dropped here.
pub fn project(raw: RawRepo) -> (r: Result<UserRepo, ProjectionError>)
    ensures
        r is Ok <==> raw@.projectable(),
        projected(raw@) matches Ok(v) ==> r matches Ok(u) && u@ == v,
        projected(raw@) matches Err(e) ==> r == Err::<UserRepo, ProjectionError>(e),
        r matches Ok(u) ==> u@.redacted(),
        r matches Ok(u) ==> (raw.private == Some(true) ==> u@.url is None && u@.name
            == REDACTED_NAME@),
        r matches Ok(u) ==> (raw.private == Some(false) ==> u@.name == raw@.name && u@.url
            == raw@.html_url),
{
    let RawRepo { id, html_url, name, description, language, private, fork, archived } = raw;
    let private = match private {
        Some(flag) => flag,
        None => {
            return Err(ProjectionError::MissingField(RequiredField::Private));
        },
    };
    let fork = match fork {
        Some(flag) => flag,
        None => {
            return Err(ProjectionError::MissingField(RequiredField::Fork));
        },
    };
    let repo_type = if fork {
        RepoType::Fork
    } else {
        RepoType::Source
    };
    let archived = match archived {
        Some(flag) => flag,
        None => false,
    };
    let (url, name) = if private {
        (None, String::from_str(REDACTED_NAME))
    } else {
        (html_url, name)
    };
    Ok(UserRepo { id, url, name, repo_type, description, language, private, archived })
}

impl Clone for UserRepo {
    fn clone(&self) -> (r: Self)
        ensures
            r == *self,
    {
        proof {
            use_type_invariant(self);
        }
        UserRepo {
            id: self.id,
            url: clone_text(&self.url),
            name: self.name.clone(),
            repo_type: self.repo_type,
            description: clone_text(&self.description),
            language: clone_text(&self.language),
            private: self.private,
            archived: self.archived,
        }
    }
}

impl UserRepo {
    #[verifier::type_invariant]
    spec fn well_formed(&self) -> bool {
        self@.redacted()
    }

    /// The identifier that the upstream source gave the repository.
    pub fn id(&self) -> (id: u64)
        ensures
            id == self@.id,
    {
        self.id
    }

    /// The address of the repository; a private one has none.
    pub fn html_url(&self) -> (url: &Option<String>)
        ensures
            text_of(*url) == self@.url,
            self@.redacted(),
    {
        proof {
            use_type_invariant(self);
        }
        &self.url
    }

    /// The name under which the repository is shown; for a private one this
    /// is [`REDACTED_NAME`].
    pub fn name(&self) -> (name: &String)
        ensures
            name@ == self@.name,
            self@.redacted(),
    {
        proof {
            use_type_invariant(self);
        }
        &self.name
    }

    /// The classification of the repository.
    pub fn repo_type(&self) -> (kind: RepoType)
        ensures
            kind == self@.repo_type,
    {
        self.repo_type
    }

    /// The description of the repository, as the upstream source gave it.
    pub fn description(&self) -> (description: &Option<String>)
        ensures
            text_of(*description) == self@.description,
    {
        &self.description
    }

    /// The primary language of the repository, as the upstream source gave it.
    pub fn language(&self) -> (language: &Option<String>)
        ensures
            text_of(*language) == self@.language,
    {
        &self.language
    }

    /// Whether the repository is private.
    pub fn private(&self) -> (private: bool)
        ensures
            private == self@.private,
            self@.redacted(),
    {
        proof {
            use_type_invariant(self);
        }
        self.private
    }

    /// Whether the repository is archived.
    pub fn archived(&self) -> (archived: bool)
        ensures
            archived == self@.archived,
    {
        self.archived
    }

    /// The address as text, or the placeholder where there is none.
    pub fn url(&self) -> (s: String)
        ensures
            s@ == self@.url_text(),
    {
        match &self.url {
            Some(url) => url.clone(),
            None => String::from_str(PLACEHOLDER_URL),
        }
    }

    /// The link to the repository, as a fragment of HTML.
    pub fn url_anchor(&self) -> (s: String)
        ensures
            s@ == self@.anchor(),
    {
        match &self.url {
            Some(url) => {
                let mut s = String::from_str("<a href=\"");
                s.append(url.as_str());
                s.append("\">");
                s.append(self.name.as_str());
                s.append("</a>");
                s
            },
            None => String::from_str(PRIVATE_MARKER),
        }
    }

    /// The one-line summary of the repository: name, privacy, address.
    pub fn to_string(&self) -> (s: String)
        ensures
            s@ == self@.summary(),
    {
        let mut s = self.name.clone();
        s.append(" (private? ");
        if self.private {
            s.append("true");
        } else {
            s.append("false");
        }
        s.append("), url: ");
        let url = self.url();
        s.append(url.as_str());
        s
    }
}

} // verus!
