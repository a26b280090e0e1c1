//! Canonical repository URLs.

use vstd::prelude::*;
use vstd::string::*;

verus! {

/// The canonical form of a repository URL, with the path component that
/// the URL parser found in it.
#[derive(Debug)]
pub struct RepoUrl {
    /// The URL as the parser serialises it. Two URLs are the same
    /// repository exactly when these texts are equal.
    pub text: String,
    /// The path component, as in `/owner/name`.
    pub path: String,
}

/// What a [`RepoUrl`] stands for.
pub struct RepoUrlView {
    pub text: Seq<char>,
    pub path: Seq<char>,
}

impl View for RepoUrl {
    type V = RepoUrlView;

    open spec fn view(&self) -> RepoUrlView {
        RepoUrlView { text: self.text@, path: self.path@ }
    }
}

impl Clone for RepoUrl {
    fn clone(&self) -> (copy: Self)
        ensures
            copy == *self,
    {
        RepoUrl { text: self.text.clone(), path: self.path.clone() }
    }
}

impl RepoUrlView {
    /// The path is rooted: it begins with a slash, so that what follows
    /// names a directory relative to a workspace.
    pub open spec fn rooted(self) -> bool {
        self.path.len() > 0 && self.path[0] == '/'
    }

    /// The path without its leading slash.
    pub open spec fn workspace_path(self) -> Seq<char> {
        self.path.skip(1)
    }
}

/// Why a text is no repository URL.
#[derive(Clone, Copy, Debug, PartialEq, Eq, Structural)]
pub enum UrlError {
    /// The URL parser rejects the text.
    Malformed,
    /// The text is a URL, but its path does not begin with a slash.
    Unrooted,
}

/// The parse error of the `url` crate.
#[verifier::external_type_specification]
#[verifier::external_body]
pub struct ExUrlParseError(url::ParseError);

/// The serialisation and the path of the URL that `url::Url::parse` reads
/// from `input`, `None` where it reports an error.
pub uninterp spec fn url_parse(input: Seq<char>) -> Option<RepoUrlView>;

/// Calls `url::Url::parse`, and copies what `Url::as_str` and `Url::path`
/// give for the URL it returns. The contract claims only that the outcome
/// is the one named [`url_parse`]: parsing depends on the input alone.
#[verifier::external_body]
fn url_parse_parts(input: &str) -> (parsed: Result<RepoUrl, url::ParseError>)
    ensures
        match parsed {
            Ok(url) => url_parse(input@) == Some(url@),
            Err(_) => url_parse(input@) is None,
        },
{
    match url::Url::parse(input) {
        Ok(u) => Ok(RepoUrl { text: u.as_str().to_string(), path: u.path().to_string() }),
        Err(e) => Err(e),
    }
}

/// Where the repositories of the code host live.
pub open spec fn host_prefix() -> Seq<char> {
    "https://github.com/"@
}

impl RepoUrl {
    /// Whether the path is rooted; see [`RepoUrlView::rooted`].
    pub open spec fn wf(&self) -> bool {
        self@.rooted()
    }

    /// Decides whether a parsed URL can stand for a repository.
    pub fn check_rooted(url: RepoUrl) -> (checked: Result<RepoUrl, UrlError>)
        ensures
            match checked {
                Ok(u) => u == url && url.wf(),
                Err(e) => !url.wf() && e == UrlError::Unrooted,
            },
    {
        if url.is_rooted() {
            Ok(url)
        } else {
            Err(UrlError::Unrooted)
        }
    }

    /// Parses `input` into its canonical form.
    pub fn parse(input: &str) -> (parsed: Result<RepoUrl, UrlError>)
        ensures
            match parsed {
                Ok(url) => url_parse(input@) == Some(url@) && url.wf(),
                Err(UrlError::Malformed) => url_parse(input@) is None,
                Err(UrlError::Unrooted) => url_parse(input@) is Some && !url_parse(
                    input@,
                )->0.rooted(),
            },
    {
        match url_parse_parts(input) {
            Ok(url) => RepoUrl::check_rooted(url),
            Err(_) => Err(UrlError::Malformed),
        }
    }

    /// The URL of the repository `full_name` (`owner/name`) on the code host.
    pub fn on_host(full_name: &str) -> (parsed: Result<RepoUrl, UrlError>)
        ensures
            match parsed {
                Ok(url) => url_parse(host_prefix() + full_name@) == Some(url@) && url.wf(),
                Err(UrlError::Malformed) => url_parse(host_prefix() + full_name@) is None,
                Err(UrlError::Unrooted) => url_parse(host_prefix() + full_name@) is Some
                    && !url_parse(host_prefix() + full_name@)->0.rooted(),
            },
    {
        let address = String::from_str("https://github.com/").concat(full_name);
        RepoUrl::parse(address.as_str())
    }

    /// Whether the path begins with a slash.
    pub fn is_rooted(&self) -> (rooted: bool)
        ensures
            rooted == self.wf(),
    {
        let path = self.path.as_str();
        path.unicode_len() > 0 && path.get_char(0) == '/'
    }

    /// The canonical text.
    pub fn as_str(&self) -> (text: &str)
        ensures
            text@ == self@.text,
    {
        self.text.as_str()
    }

    /// Whether two URLs name the same repository.
    pub fn same(&self, other: &RepoUrl) -> (equal: bool)
        ensures
            equal == (self@.text == other@.text),
    {
        self.text == other.text
    }

    /// The directory, relative to the scratch workspace, into which the
    /// repository is checked out: the path without its leading slash.
    pub fn workspace_path(&self) -> (dir: String)
        requires
            self.wf(),
        ensures
            dir@ == self@.workspace_path(),
    {
        let path = self.path.as_str();
        let n: usize = path.unicode_len();
        let rest = path.substring_char(1, n);
        assert(rest@ =~= self@.path.skip(1));
        String::from_str(rest)
    }
}

} // verus!
