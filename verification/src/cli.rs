//! The decisions of the `idmrs` command line: what a `--config` argument asks
//! for, which mode and settings a download uses, how a request is built for
//! each URL, and where a URL comes from.

use vstd::prelude::*;
use vstd::string::*;

use crate::config::{lookup, lookup_bool, Config};
use crate::request::{opt_text, DownloadMode, RequestView, SendLinkRequest};
use crate::text::{
    chars_of, find_char_from, first_from, is_first_from, lemma_first_from_unique, same_text, trim,
    trimmed,
};

verus! {

/// Errors of the command line.
#[derive(Debug, Clone, Copy, PartialEq, Eq, Structural)]
pub enum CliError {
    /// No URL was given on the command line.
    NoUrl,
    /// The URL typed in at the prompt was empty.
    NoInputUrl,
}

impl CliError {
    /// The message shown to the user for this error.
    pub fn message(&self) -> (r: String)
        ensures
            r@ == match self {
                CliError::NoUrl => "No URL given. Run with --help for usage."@,
                CliError::NoInputUrl => "You not input URL Download !"@,
            },
    {
        match self {
            CliError::NoUrl => String::from_str("No URL given. Run with --help for usage."),
            CliError::NoInputUrl => String::from_str("You not input URL Download !"),
        }
    }
}

/// Whether the arguments ask only for the version: exactly one argument
/// after the program name, `-V` or `--version`.
pub fn is_version_request(args: &Vec<String>) -> (r: bool)
    ensures
        r == (args.len() == 2 && (args[1]@ == "-V"@ || args[1]@ == "--version"@)),
{
    args.len() == 2 && (same_text(args[1].as_str(), "-V") || same_text(
        args[1].as_str(),
        "--version",
    ))
}

/// What a `--config` argument asks for.
pub enum ConfigCommand {
    /// `doc`: print the valid section and option names.
    Docs,
    /// `section:option:value`: store `value` as `option` of `section`.
    Store { section: String, option: String, value: String },
    /// Anything else.
    Invalid,
}

/// The abstract content of a [`ConfigCommand`].
pub enum ConfigCommandView {
    Docs,
    Store { section: Seq<char>, option: Seq<char>, value: Seq<char> },
    Invalid,
}

impl View for ConfigCommand {
    type V = ConfigCommandView;

    open spec fn view(&self) -> ConfigCommandView {
        match self {
            ConfigCommand::Docs => ConfigCommandView::Docs,
            ConfigCommand::Store { section, option, value } => ConfigCommandView::Store {
                section: section@,
                option: option@,
                value: value@,
            },
            ConfigCommand::Invalid => ConfigCommandView::Invalid,
        }
    }
}

/// What `--config a` asks for: `doc`, or the three parts of `a` split at its
/// first two `:` (the value keeps any further `:`), or nothing valid when `a`
/// holds fewer than two `:`.
pub open spec fn spec_config_command(a: Seq<char>) -> ConfigCommandView {
    if a == "doc"@ {
        ConfigCommandView::Docs
    } else {
        match first_from(a, ':', 0) {
            Some(i) => match first_from(a, ':', i + 1) {
                Some(j) => ConfigCommandView::Store {
                    section: a.take(i),
                    option: a.subrange(i + 1, j),
                    value: a.skip(j + 1),
                },
                None => ConfigCommandView::Invalid,
            },
            None => ConfigCommandView::Invalid,
        }
    }
}

/// Reads a `--config` argument: `doc`, or `section:option:value`.
pub fn parse_config_arg(arg: &str) -> (r: ConfigCommand)
    ensures
        r@ == spec_config_command(arg@),
{
    if same_text(arg, "doc") {
        return ConfigCommand::Docs;
    }
    let chars = chars_of(arg);
    let n = chars.len();
    match find_char_from(&chars, ':', 0) {
        Some(i) => match find_char_from(&chars, ':', i + 1) {
            Some(j) => {
                let section = arg.substring_char(0, i).to_owned();
                let option = arg.substring_char(i + 1, j).to_owned();
                let value = arg.substring_char(j + 1, n).to_owned();
                assert(arg@.take(i as int) =~= arg@.subrange(0, i as int));
                assert(arg@.skip(j + 1) =~= arg@.subrange(j + 1, arg@.len() as int));
                ConfigCommand::Store { section, option, value }
            },
            None => ConfigCommand::Invalid,
        },
        None => ConfigCommand::Invalid,
    }
}

/// Writing `section:option:value` gives back the three parts, when neither
/// the section nor the option holds a `:` (the value may hold any).
pub proof fn lemma_config_arg_roundtrip(section: Seq<char>, option: Seq<char>, value: Seq<char>)
    requires
        !section.contains(':'),
        !option.contains(':'),
    ensures
        spec_config_command(section + seq![':'] + option + seq![':'] + value)
            == (ConfigCommandView::Store { section, option, value }),
{
    let a = section + seq![':'] + option + seq![':'] + value;
    let i = section.len() as int;
    let j = i + 1 + option.len();
    assert(a[i] == ':');
    assert forall|k: int| 0 <= k < i implies a[k] != ':' by {
        assert(a[k] == section[k]);
    }
    assert(is_first_from(a, ':', 0, i));
    lemma_first_from_unique(a, ':', 0, i);
    assert(a[j] == ':');
    assert forall|k: int| i + 1 <= k < j implies a[k] != ':' by {
        assert(a[k] == option[k - i - 1]);
    }
    assert(is_first_from(a, ':', i + 1, j));
    lemma_first_from_unique(a, ':', i + 1, j);
    reveal_strlit("doc");
    assert(a != "doc"@) by {
        if a == "doc"@ {
            assert(a.len() == 3);
            assert(a[i] == ':');
        }
    }
    assert(a.take(i) =~= section);
    assert(a.subrange(i + 1, j) =~= option);
    assert(a.skip(j + 1) =~= value);
}

/// The mode chosen by the `--confirm` and `--add` switches: confirming wins
/// over adding only, and without either the download starts at once.
pub open spec fn spec_mode(confirm: bool, add: bool) -> DownloadMode {
    if confirm {
        DownloadMode::Confirm
    } else if add {
        DownloadMode::AddOnly
    } else {
        DownloadMode::Download
    }
}

/// The mode chosen by the `--confirm` and `--add` switches.
pub fn choose_mode(confirm: bool, add: bool) -> (r: DownloadMode)
    ensures
        r == spec_mode(confirm, add),
{
    if confirm {
        DownloadMode::Confirm
    } else if add {
        DownloadMode::AddOnly
    } else {
        DownloadMode::Download
    }
}

/// What every download of one run shares.
pub struct Settings {
    /// The directory to save into.
    pub download_path: String,
    /// How IDM treats the links.
    pub mode: DownloadMode,
    /// The User-Agent string, if any.
    pub user_agent: Option<String>,
}

/// The first of two optional values that is present.
pub open spec fn or_else(a: Option<Seq<char>>, b: Option<Seq<char>>) -> Option<Seq<char>> {
    match a {
        Some(v) => Some(v),
        None => b,
    }
}

/// A value given on the command line is used whatever `idm.ini` holds; only
/// when it is absent does the setting count, and only when both are absent
/// does the default.
pub proof fn lemma_command_line_first(
    given: Option<Seq<char>>,
    configured: Option<Seq<char>>,
    default: Seq<char>,
)
    ensures
        given matches Some(g) ==> or_else(given, configured) == Some(g),
        given matches Some(g) ==> or_else(or_else(given, configured), Some(default)) == Some(g),
        given is None ==> or_else(given, configured) == configured,
        given is None ==> (configured matches Some(c) ==> or_else(
            or_else(given, configured),
            Some(default),
        ) == Some(c)),
        given is None && configured is None ==> or_else(or_else(given, configured), Some(default))
            == Some(default),
{
}

/// The settings of a run: each from the command line where given, else from
/// `idm.ini` (`DOWNLOAD_PATH`, `DOWNLOAD_CONFIRM`, `DATA_USER_AGENT`); the
/// directory defaults to ".", and the mode asks for confirmation when either
/// the switch or the setting does.
pub fn resolve_settings(
    path: Option<String>,
    confirm: bool,
    add: bool,
    user_agent: Option<String>,
    cfg: &Config,
) -> (r: Settings)
    ensures
        Some(r.download_path@) == or_else(
            or_else(opt_text(path), lookup(cfg.entries(), "DOWNLOAD_PATH"@)),
            Some("."@),
        ),
        r.mode == spec_mode(confirm || lookup_bool(cfg.entries(), "DOWNLOAD_CONFIRM"@), add),
        opt_text(r.user_agent) == or_else(
            opt_text(user_agent),
            lookup(cfg.entries(), "DATA_USER_AGENT"@),
        ),
        path matches Some(p) ==> r.download_path@ == p@,
        path is None ==> (lookup(cfg.entries(), "DOWNLOAD_PATH"@) matches Some(v)
            ==> r.download_path@ == v),
        path is None && lookup(cfg.entries(), "DOWNLOAD_PATH"@) is None ==> r.download_path@
            == "."@,
        user_agent matches Some(u) ==> opt_text(r.user_agent) == Some(u@),
        user_agent is None ==> opt_text(r.user_agent) == lookup(
            cfg.entries(),
            "DATA_USER_AGENT"@,
        ),
{
    let download_path = match path {
        Some(p) => p,
        None => match cfg.get("DOWNLOAD_PATH") {
            Some(v) => v,
            None => String::from_str("."),
        },
    };
    let confirm_all = confirm || cfg.get_bool("DOWNLOAD_CONFIRM");
    let mode = choose_mode(confirm_all, add);
    let user_agent = match user_agent {
        Some(u) => Some(u),
        None => cfg.get("DATA_USER_AGENT"),
    };
    Settings { download_path, mode, user_agent }
}

/// The optional parameters given on the command line, shared by all URLs.
pub struct RequestOptions {
    pub referrer: Option<String>,
    pub cookie: Option<String>,
    pub post_data: Option<String>,
    pub username: Option<String>,
    pub password: Option<String>,
    pub output: Option<String>,
}

/// The request sent for `url`: saved into the run's directory in the run's
/// mode, with every optional parameter that was given.
pub open spec fn spec_request(
    url: Seq<char>,
    settings: Settings,
    opts: RequestOptions,
) -> RequestView {
    RequestView {
        link: url,
        referrer: opt_text(opts.referrer),
        cookie: opt_text(opts.cookie),
        post_data: opt_text(opts.post_data),
        user: opt_text(opts.username),
        password: opt_text(opts.password),
        path_to_save: Some(settings.download_path@),
        output: opt_text(opts.output),
        user_agent: opt_text(settings.user_agent),
        mode: settings.mode,
    }
}

/// Every option given on the command line reaches the request unchanged,
/// each in its own field, and an option not given leaves its field unset:
/// the request for `url` is `url` saved into the run's directory in the
/// run's mode, carrying each option.
pub proof fn lemma_request_carries_options(url: Seq<char>, settings: Settings, opts: RequestOptions)
    ensures
        spec_request(url, settings, opts).link == url,
        spec_request(url, settings, opts).referrer == opt_text(opts.referrer),
        spec_request(url, settings, opts).cookie == opt_text(opts.cookie),
        spec_request(url, settings, opts).post_data == opt_text(opts.post_data),
        spec_request(url, settings, opts).user == opt_text(opts.username),
        spec_request(url, settings, opts).password == opt_text(opts.password),
        spec_request(url, settings, opts).path_to_save == Some(settings.download_path@),
        spec_request(url, settings, opts).output == opt_text(opts.output),
        spec_request(url, settings, opts).user_agent == opt_text(settings.user_agent),
        spec_request(url, settings, opts).mode == settings.mode,
        opts.cookie matches Some(c) ==> spec_request(url, settings, opts).cookie == Some(c@),
        opts.password matches Some(p) ==> spec_request(url, settings, opts).password == Some(p@),
        opts.username matches Some(u) ==> spec_request(url, settings, opts).user == Some(u@),
{
}

/// The request sent for `url`.
pub fn build_request(url: &str, settings: &Settings, opts: &RequestOptions) -> (r: SendLinkRequest)
    ensures
        r@ == spec_request(url@, *settings, *opts),
        r@.link == url@,
        r@.referrer == opt_text(opts.referrer),
        r@.cookie == opt_text(opts.cookie),
        r@.post_data == opt_text(opts.post_data),
        r@.user == opt_text(opts.username),
        r@.password == opt_text(opts.password),
        r@.path_to_save == Some(settings.download_path@),
        r@.output == opt_text(opts.output),
        r@.user_agent == opt_text(settings.user_agent),
        r@.mode == settings.mode,
{
    let mut req = SendLinkRequest::new(url).path_to_save(settings.download_path.as_str()).mode(
        settings.mode,
    );
    if let Some(v) = &opts.referrer {
        req = req.referrer(v.as_str());
    }
    if let Some(v) = &opts.cookie {
        req = req.cookie(v.as_str());
    }
    if let Some(v) = &opts.post_data {
        req = req.post_data(v.as_str());
    }
    if let Some(v) = &opts.username {
        req = req.user(v.as_str());
    }
    if let Some(v) = &opts.password {
        req = req.password(v.as_str());
    }
    if let Some(v) = &opts.output {
        req = req.output(v.as_str());
    }
    if let Some(v) = &settings.user_agent {
        req = req.user_agent(v.as_str());
    }
    req
}

/// Whether a URL argument asks for the URL held in the clipboard: it is `c`.
pub fn wants_clipboard(url: &str) -> (r: bool)
    ensures
        r == (url@ == "c"@),
{
    same_text(url, "c")
}

/// The URL taken from the clipboard's text: the text when it could be read
/// and is not empty; otherwise `None`, and the user is asked to type one.
pub fn clipboard_url(text: Option<String>) -> (r: Option<String>)
    ensures
        opt_text(r) == match opt_text(text) {
            Some(t) => if t.len() > 0 { Some(t) } else { None },
            None => None,
        },
{
    match text {
        Some(t) => if t.as_str().is_empty() {
            None
        } else {
            Some(t)
        },
        None => None,
    }
}

/// The URL typed in at the prompt: the line without surrounding white
/// space, which must not be empty.
pub fn typed_url(line: &str) -> (r: Result<String, CliError>)
    ensures
        match r {
            Ok(u) => u@ == trimmed(line@) && trimmed(line@).len() > 0,
            Err(e) => e == CliError::NoInputUrl && trimmed(line@).len() == 0,
        },
{
    let t = trim(line);
    if t.is_empty() {
        Err(CliError::NoInputUrl)
    } else {
        Ok(t.to_owned())
    }
}

} // verus!
