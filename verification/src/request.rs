//! The request model: how IDM should treat a link, and the link with its
//! optional download parameters.

use vstd::prelude::*;

verus! {

/// How IDM should treat a submitted link.
#[derive(Debug, Clone, Copy, PartialEq, Eq, Structural)]
pub enum DownloadMode {
    /// Start downloading immediately (default).
    Download,
    /// Ask the user to confirm before starting the download.
    Confirm,
    /// Add the link to IDM's queue without starting the download.
    AddOnly,
}

impl Default for DownloadMode {
    fn default() -> (r: Self)
        ensures
            r == DownloadMode::Download,
    {
        DownloadMode::Download
    }
}

impl DownloadMode {
    /// The `lflag` value that IDM expects for this mode.
    pub open spec fn spec_lflag(self) -> i32 {
        match self {
            DownloadMode::Confirm => 0,
            DownloadMode::Download => 1,
            DownloadMode::AddOnly => 2,
        }
    }

    /// The `lflag` value handed to IDM: 0 to confirm, 1 to download, 2 to
    /// queue only.
    pub fn lflag(self) -> (r: i32)
        ensures
            r == self.spec_lflag(),
    {
        match self {
            DownloadMode::Confirm => 0,
            DownloadMode::AddOnly => 2,
            DownloadMode::Download => 1,
        }
    }
}

/// Distinct modes give distinct flags, so IDM can tell them apart.
pub proof fn lemma_lflag_injective(a: DownloadMode, b: DownloadMode)
    requires
        a.spec_lflag() == b.spec_lflag(),
    ensures
        a == b,
{
}

/// The text an optional string holds, if any.
pub open spec fn opt_text(o: Option<String>) -> Option<Seq<char>> {
    match o {
        Some(s) => Some(s@),
        None => None,
    }
}

/// The abstract content of a [`SendLinkRequest`].
pub struct RequestView {
    pub link: Seq<char>,
    pub referrer: Option<Seq<char>>,
    pub cookie: Option<Seq<char>>,
    pub post_data: Option<Seq<char>>,
    pub user: Option<Seq<char>>,
    pub password: Option<Seq<char>>,
    pub path_to_save: Option<Seq<char>>,
    pub output: Option<Seq<char>>,
    pub user_agent: Option<Seq<char>>,
    pub mode: DownloadMode,
}

/// A request to send a link to IDM.
///
/// Build one with [`SendLinkRequest::new`] and the builder-style setters.
#[derive(Debug, Clone)]
pub struct SendLinkRequest {
    pub link: String,
    pub referrer: Option<String>,
    pub cookie: Option<String>,
    pub post_data: Option<String>,
    pub user: Option<String>,
    pub password: Option<String>,
    pub path_to_save: Option<String>,
    pub output: Option<String>,
    pub user_agent: Option<String>,
    pub mode: DownloadMode,
}

impl View for SendLinkRequest {
    type V = RequestView;

    open spec fn view(&self) -> RequestView {
        RequestView {
            link: self.link@,
            referrer: opt_text(self.referrer),
            cookie: opt_text(self.cookie),
            post_data: opt_text(self.post_data),
            user: opt_text(self.user),
            password: opt_text(self.password),
            path_to_save: opt_text(self.path_to_save),
            output: opt_text(self.output),
            user_agent: opt_text(self.user_agent),
            mode: self.mode,
        }
    }
}

/// A request for `link` with no optional parameter and the default mode.
pub open spec fn fresh_request(link: Seq<char>) -> RequestView {
    RequestView {
        link,
        referrer: None,
        cookie: None,
        post_data: None,
        user: None,
        password: None,
        path_to_save: None,
        output: None,
        user_agent: None,
        mode: DownloadMode::Download,
    }
}

impl Default for SendLinkRequest {
    fn default() -> (r: Self)
        ensures
            r@ == fresh_request(Seq::empty()),
    {
        SendLinkRequest {
            link: String::new(),
            referrer: None,
            cookie: None,
            post_data: None,
            user: None,
            password: None,
            path_to_save: None,
            output: None,
            user_agent: None,
            mode: DownloadMode::Download,
        }
    }
}

impl SendLinkRequest {
    /// Start building a request for the given URL.
    pub fn new(link: &str) -> (r: Self)
        ensures
            r@ == fresh_request(link@),
    {
        SendLinkRequest { link: link.to_owned(), ..Default::default() }
    }

    /// Sets the referrer URL.
    pub fn referrer(self, v: &str) -> (r: Self)
        ensures
            r@ == (RequestView { referrer: Some(v@), ..self@ }),
    {
        SendLinkRequest { referrer: Some(v.to_owned()), ..self }
    }

    /// Sets the cookie string.
    pub fn cookie(self, v: &str) -> (r: Self)
        ensures
            r@ == (RequestView { cookie: Some(v@), ..self@ }),
    {
        SendLinkRequest { cookie: Some(v.to_owned()), ..self }
    }

    /// Sets the POST data string.
    pub fn post_data(self, v: &str) -> (r: Self)
        ensures
            r@ == (RequestView { post_data: Some(v@), ..self@ }),
    {
        SendLinkRequest { post_data: Some(v.to_owned()), ..self }
    }

    /// Sets the user name for downloads that need authentication.
    pub fn user(self, v: &str) -> (r: Self)
        ensures
            r@ == (RequestView { user: Some(v@), ..self@ }),
    {
        SendLinkRequest { user: Some(v.to_owned()), ..self }
    }

    /// Sets the password for downloads that need authentication.
    pub fn password(self, v: &str) -> (r: Self)
        ensures
            r@ == (RequestView { password: Some(v@), ..self@ }),
    {
        SendLinkRequest { password: Some(v.to_owned()), ..self }
    }

    /// Sets the directory to save into.
    pub fn path_to_save(self, v: &str) -> (r: Self)
        ensures
            r@ == (RequestView { path_to_save: Some(v@), ..self@ }),
    {
        SendLinkRequest { path_to_save: Some(v.to_owned()), ..self }
    }

    /// Sets the file name to save under.
    pub fn output(self, v: &str) -> (r: Self)
        ensures
            r@ == (RequestView { output: Some(v@), ..self@ }),
    {
        SendLinkRequest { output: Some(v.to_owned()), ..self }
    }

    /// Sets the User-Agent string.
    pub fn user_agent(self, v: &str) -> (r: Self)
        ensures
            r@ == (RequestView { user_agent: Some(v@), ..self@ }),
    {
        SendLinkRequest { user_agent: Some(v.to_owned()), ..self }
    }

    /// Sets how IDM treats the link.
    pub fn mode(self, v: DownloadMode) -> (r: Self)
        ensures
            r@ == (RequestView { mode: v, ..self@ }),
    {
        SendLinkRequest { mode: v, ..self }
    }
}

} // verus!
