//! What is handed to IDM's `CIDMLinkTransmitter` through late-bound COM
//! automation (`ICIDMLinkTransmitter2::SendLinkToIDM2`): the parameters of one
//! call and the argument list in the order that `IDispatch::Invoke` expects.

use vstd::prelude::*;
use vstd::string::*;

use crate::request::{opt_text, SendLinkRequest};

verus! {

/// Errors of the link transmitter.
#[derive(Debug, Clone, Copy, PartialEq, Eq, Structural)]
pub enum IdmError {
    /// IDM's COM class could not be created: IDM is not installed.
    NotFound,
}

impl IdmError {
    /// The message shown to the user for this error.
    pub fn message(&self) -> (r: String)
        ensures
            r@ == "It seem IDM (Internet Download Manager) not installed, please install first !"@,
    {
        match self {
            IdmError::NotFound => String::from_str(
                "It seem IDM (Internet Download Manager) not installed, please install first !",
            ),
        }
    }
}

/// Parameters for `SendLinkToIDM2`, in the order of its signature.
pub struct SendLinkArgs<'a> {
    pub link: &'a str,
    pub referrer: Option<&'a str>,
    pub cookie: Option<&'a str>,
    pub post_data: Option<&'a str>,
    pub user: Option<&'a str>,
    pub password: Option<&'a str>,
    pub path_to_save: Option<&'a str>,
    pub output: Option<&'a str>,
    pub lflag: i32,
    pub user_agent: Option<&'a str>,
}

/// The text an optional string slice holds, if any.
pub open spec fn opt_str(o: Option<&str>) -> Option<Seq<char>> {
    match o {
        Some(s) => Some(s@),
        None => None,
    }
}

/// Borrows the text of an optional string.
fn as_deref(o: &Option<String>) -> (r: Option<&str>)
    ensures
        opt_str(r) == opt_text(*o),
{
    match o {
        Some(s) => Some(s.as_str()),
        None => None,
    }
}

/// The parameters of the call that sends `req` to IDM: each field of the
/// request, and the mode as its `lflag`.
pub fn send_link_args<'a>(req: &'a SendLinkRequest) -> (r: SendLinkArgs<'a>)
    ensures
        r.link@ == req@.link,
        opt_str(r.referrer) == req@.referrer,
        opt_str(r.cookie) == req@.cookie,
        opt_str(r.post_data) == req@.post_data,
        opt_str(r.user) == req@.user,
        opt_str(r.password) == req@.password,
        opt_str(r.path_to_save) == req@.path_to_save,
        opt_str(r.output) == req@.output,
        r.lflag == req@.mode.spec_lflag(),
        opt_str(r.user_agent) == req@.user_agent,
{
    SendLinkArgs {
        link: req.link.as_str(),
        referrer: as_deref(&req.referrer),
        cookie: as_deref(&req.cookie),
        post_data: as_deref(&req.post_data),
        user: as_deref(&req.user),
        password: as_deref(&req.password),
        path_to_save: as_deref(&req.path_to_save),
        output: as_deref(&req.output),
        lflag: req.mode.lflag(),
        user_agent: as_deref(&req.user_agent),
    }
}

/// One argument of a late-bound COM call: an empty `VARIANT`, a `BSTR` or an
/// `I4`.
pub enum ComValue<'a> {
    Empty,
    Str(&'a str),
    Int(i32),
}

/// The abstract content of a [`ComValue`].
pub enum ComArg {
    Empty,
    Str(Seq<char>),
    Int(i32),
}

impl<'a> View for ComValue<'a> {
    type V = ComArg;

    open spec fn view(&self) -> ComArg {
        match self {
            ComValue::Empty => ComArg::Empty,
            ComValue::Str(s) => ComArg::Str(s@),
            ComValue::Int(n) => ComArg::Int(*n),
        }
    }
}

/// An optional string as a COM argument: a string, or empty when absent.
pub open spec fn str_arg(o: Option<Seq<char>>) -> ComArg {
    match o {
        Some(s) => ComArg::Str(s),
        None => ComArg::Empty,
    }
}

/// An optional string as a COM argument: a `BSTR` holding it, or an empty
/// `VARIANT` when it is absent.
pub fn variant_str<'a>(v: Option<&'a str>) -> (r: ComValue<'a>)
    ensures
        r@ == str_arg(opt_str(v)),
{
    match v {
        Some(s) => ComValue::Str(s),
        None => ComValue::Empty,
    }
}

/// The arguments of `SendLinkToIDM2` in the order of its signature: link,
/// referrer, cookie, POST data, user, password, local path, local file name,
/// flags, and two reserved arguments, of which the first carries the
/// User-Agent and the second is always empty.
pub open spec fn positional_args(args: SendLinkArgs) -> Seq<ComArg> {
    seq![
        ComArg::Str(args.link@),
        str_arg(opt_str(args.referrer)),
        str_arg(opt_str(args.cookie)),
        str_arg(opt_str(args.post_data)),
        str_arg(opt_str(args.user)),
        str_arg(opt_str(args.password)),
        str_arg(opt_str(args.path_to_save)),
        str_arg(opt_str(args.output)),
        ComArg::Int(args.lflag),
        str_arg(opt_str(args.user_agent)),
        ComArg::Empty,
    ]
}

/// The argument array of the `IDispatch::Invoke` call: COM takes the
/// arguments of a call in reverse order, so the list is the call's
/// positional arguments reversed.
pub fn com_arguments<'a>(args: &SendLinkArgs<'a>) -> (r: Vec<ComValue<'a>>)
    ensures
        r@.map_values(|v: ComValue<'a>| v@) == positional_args(*args).reverse(),
        r.len() == 11,
        r@[0]@ == ComArg::Empty,
        r@[1]@ == str_arg(opt_str(args.user_agent)),
        r@[2]@ == ComArg::Int(args.lflag),
        r@[3]@ == str_arg(opt_str(args.output)),
        r@[4]@ == str_arg(opt_str(args.path_to_save)),
        r@[5]@ == str_arg(opt_str(args.password)),
        r@[6]@ == str_arg(opt_str(args.user)),
        r@[7]@ == str_arg(opt_str(args.post_data)),
        r@[8]@ == str_arg(opt_str(args.cookie)),
        r@[9]@ == str_arg(opt_str(args.referrer)),
        r@[10]@ == ComArg::Str(args.link@),
{
    let r: Vec<ComValue<'a>> = vec![
        ComValue::Empty,
        variant_str(args.user_agent),
        ComValue::Int(args.lflag),
        variant_str(args.output),
        variant_str(args.path_to_save),
        variant_str(args.password),
        variant_str(args.user),
        variant_str(args.post_data),
        variant_str(args.cookie),
        variant_str(args.referrer),
        ComValue::Str(args.link),
    ];
    assert(r@.map_values(|v: ComValue<'a>| v@) =~= positional_args(*args).reverse());
    r
}

/// The slot that an optional parameter fills: a `BSTR` of its text when it
/// is given, an empty `VARIANT` when it is not.
pub open spec fn fills_slot(slot: ComArg, o: Option<&str>) -> bool {
    match o {
        Some(s) => slot == ComArg::Str(s@),
        None => slot == ComArg::Empty,
    }
}

/// Each argument of `SendLinkToIDM2` carries its own parameter and nothing
/// else: read back to front, the argument array is the link, the referrer,
/// the cookie, the POST data, the user, the password, the directory to save
/// into, the file name, the flags, the User-Agent and an empty argument. In
/// particular the directory fills the seventh argument whenever it is given,
/// whatever the other parameters are.
pub proof fn lemma_argument_slots(args: SendLinkArgs)
    ensures
        positional_args(args).reverse().len() == 11,
        positional_args(args).reverse()[10] == ComArg::Str(args.link@),
        fills_slot(positional_args(args).reverse()[9], args.referrer),
        fills_slot(positional_args(args).reverse()[8], args.cookie),
        fills_slot(positional_args(args).reverse()[7], args.post_data),
        fills_slot(positional_args(args).reverse()[6], args.user),
        fills_slot(positional_args(args).reverse()[5], args.password),
        fills_slot(positional_args(args).reverse()[4], args.path_to_save),
        fills_slot(positional_args(args).reverse()[3], args.output),
        positional_args(args).reverse()[2] == ComArg::Int(args.lflag),
        fills_slot(positional_args(args).reverse()[1], args.user_agent),
        positional_args(args).reverse()[0] == ComArg::Empty,
{
}

/// The argument that carries one parameter depends on that parameter alone:
/// two calls that agree on the directory to save into pass the same seventh
/// argument, and likewise for every other parameter.
pub proof fn lemma_argument_slots_independent(a: SendLinkArgs, b: SendLinkArgs)
    ensures
        a.link@ == b.link@ ==> positional_args(a)[0] == positional_args(b)[0],
        opt_str(a.referrer) == opt_str(b.referrer) ==> positional_args(a)[1] == positional_args(
            b,
        )[1],
        opt_str(a.cookie) == opt_str(b.cookie) ==> positional_args(a)[2] == positional_args(b)[2],
        opt_str(a.post_data) == opt_str(b.post_data) ==> positional_args(a)[3]
            == positional_args(b)[3],
        opt_str(a.user) == opt_str(b.user) ==> positional_args(a)[4] == positional_args(b)[4],
        opt_str(a.password) == opt_str(b.password) ==> positional_args(a)[5] == positional_args(
            b,
        )[5],
        opt_str(a.path_to_save) == opt_str(b.path_to_save) ==> positional_args(a)[6]
            == positional_args(b)[6],
        opt_str(a.output) == opt_str(b.output) ==> positional_args(a)[7] == positional_args(b)[7],
        a.lflag == b.lflag ==> positional_args(a)[8] == positional_args(b)[8],
        opt_str(a.user_agent) == opt_str(b.user_agent) ==> positional_args(a)[9]
            == positional_args(b)[9],
{
}

} // verus!
