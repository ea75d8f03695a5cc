//! The cross-origin policy of the transport server.
//!
//! The service answers requests that carry no `Origin` header and requests
//! from the null origin, and echoes no origin but `null` back. How an origin
//! is judged against a list of allowed origins is the HTTP server crate's own
//! validation; this module fixes the list that it is given and says what
//! follows from each verdict.

use vstd::prelude::*;
use jsonrpc_http_server::cors::get_cors_allow_origin;
use jsonrpc_http_server::{AccessControlAllowOrigin, AllowCors};
use crate::text::{text_of, views_of};

verus! {

/// What the validation found of a request's origin.
#[derive(Debug, PartialEq, Eq)]
pub enum CorsVerdict {
    /// No `Access-Control-Allow-Origin` header is called for: the request
    /// names no origin, or it comes from the server's own host.
    NotRequired,
    /// The origin is not allowed to use the service.
    Invalid,
    /// The origin is allowed; the string is the header value to answer with.
    Allow(String),
}

/// Mathematical model of a [`CorsVerdict`].
pub enum VerdictView {
    NotRequired,
    Invalid,
    Allow(Seq<char>),
}

impl View for CorsVerdict {
    type V = VerdictView;

    open spec fn view(&self) -> VerdictView {
        match self {
            CorsVerdict::NotRequired => VerdictView::NotRequired,
            CorsVerdict::Invalid => VerdictView::Invalid,
            CorsVerdict::Allow(origin) => VerdictView::Allow(origin@),
        }
    }
}

/// The verdict of `jsonrpc_http_server::cors::get_cors_allow_origin` on a
/// request with the given `Origin` and `Host` headers, under a list of
/// allowed origins written as strings.
pub uninterp spec fn cors_verdict(
    origin: Option<Seq<char>>,
    host: Option<Seq<char>>,
    allowed: Seq<Seq<char>>,
) -> VerdictView;

/// The text of the null origin, as browsers send it and as it is echoed back.
pub open spec fn null_origin() -> Seq<char> {
    "null"@
}

/// Whether every entry of a list of allowed origins is the null origin.
pub open spec fn null_only(allowed: Seq<Seq<char>>) -> bool {
    forall|i: int| 0 <= i < allowed.len() ==> #[trigger] allowed[i] == null_origin()
}

/// The verdict, under a list that allows the null origin only, on an origin
/// that does not come from the server's own host: the null origin is allowed
/// if the list has an entry at all, and every other origin is invalid.
pub open spec fn null_only_verdict(origin: Seq<char>, entries: nat) -> VerdictView {
    if origin == null_origin() && entries > 0 {
        VerdictView::Allow(null_origin())
    } else {
        VerdictView::Invalid
    }
}

/// The longest origin, counted in characters, that is handed to the
/// validation.
pub const MAX_ORIGIN_LEN: usize = 1024;

/// Whether an origin can be handed to the validation. The validation reads
/// an origin as a pattern, in which each `{` opens a nested group, and
/// panics on a pattern that nests too deep or grows too large; so an origin
/// with a `{`, or one longer than [`MAX_ORIGIN_LEN`], is not handed to it.
/// No host name has a `{`, and none comes near that length.
pub open spec fn plain(origin: Seq<char>) -> bool {
    &&& origin.len() <= MAX_ORIGIN_LEN
    &&& forall|i: int| 0 <= i < origin.len() ==> origin[i] != '{'
}

/// Whether `text` ends with `suffix`.
pub open spec fn ends_with(text: Seq<char>, suffix: Seq<char>) -> bool {
    &&& suffix.len() <= text.len()
    &&& text.subrange(text.len() - suffix.len(), text.len() as int) == suffix
}

/// The origins that this service allows: the null origin and no other.
pub open spec fn service_origins() -> Seq<Seq<char>> {
    seq![null_origin()]
}

/// Whether the validation exempts a request to this service as coming from
/// the server's own host. It does so by comparing the origin with the `Host`
/// header, so it exempts no request that lacks that header.
pub open spec fn exempt_as_own_host(origin: Seq<char>, host: Option<Seq<char>>) -> bool {
    host is Some && cors_verdict(Some(origin), host, service_origins()) is NotRequired
}

/// The verdict of this service on a request. None is needed without an
/// origin. An origin that is not [`plain`] is invalid. Of the others, one on
/// the server's own host needs none, the null origin is allowed, and every
/// other origin is invalid.
pub open spec fn judgement(origin: Option<Seq<char>>, host: Option<Seq<char>>) -> VerdictView {
    match origin {
        None => VerdictView::NotRequired,
        Some(origin) => if !plain(origin) {
            VerdictView::Invalid
        } else if exempt_as_own_host(origin, host) {
            VerdictView::NotRequired
        } else if origin == null_origin() {
            VerdictView::Allow(null_origin())
        } else {
            VerdictView::Invalid
        },
    }
}

/// Calls `jsonrpc_http_server::cors::get_cors_allow_origin` with the list of
/// allowed origins converted entry by entry through
/// `AccessControlAllowOrigin::from`, and renders an allowed origin with its
/// `Display`.
///
/// The call compiles a pattern from every list entry but a few fixed words,
/// and from the origin where it ends with the `Host` header. It panics where
/// the pattern compiler gives up, which that compiler does on groups nested
/// some 250 deep and on an automaton of more than 10 MiB. So the list must
/// hold `"null"` only, which is no pattern, and the origin must be [`plain`]:
/// without a `{` nothing nests, and an origin of [`MAX_ORIGIN_LEN`]
/// characters, each of which may turn into three in lower case and four
/// bytes apiece, gives a pattern of some 12 KiB, with an automaton of well
/// under 1 MiB.
///
/// Taken on trust from that crate's source, for such arguments: the verdict
/// depends on the three arguments alone; a request without an origin needs no
/// header; a request that names an origin needs none only if it has a `Host`
/// header and the origin ends with that header's text; and otherwise the
/// request is judged as [`null_only_verdict`] says.
#[verifier::external_body]
fn allow_origin(origin: Option<&str>, host: Option<&str>, allowed: &Vec<String>) -> (verdict:
    CorsVerdict)
    requires
        null_only(views_of(allowed@)),
        origin is Some ==> plain(origin->0@),
    ensures
        verdict@ == cors_verdict(text_of(origin), text_of(host), views_of(allowed@)),
        origin is None ==> verdict@ is NotRequired,
        origin is Some ==> verdict@ == null_only_verdict(origin->0@, allowed@.len()) || (host
            is Some && ends_with(origin->0@, host->0@) && verdict@ is NotRequired),
{
    let list: Vec<AccessControlAllowOrigin> = allowed.iter().map(
        |entry| AccessControlAllowOrigin::from(entry.as_str()),
    ).collect();
    match get_cors_allow_origin(origin, host, &Some(list)) {
        AllowCors::NotRequired => CorsVerdict::NotRequired,
        AllowCors::Invalid => CorsVerdict::Invalid,
        AllowCors::Ok(value) => CorsVerdict::Allow(value.to_string()),
    }
}

/// What the transport does with a request once its origin is judged.
#[derive(Debug, PartialEq, Eq)]
pub enum Admission {
    /// The request goes on to the RPC layer. The response carries
    /// `Access-Control-Allow-Origin` with the given value, if there is one.
    Proceed { allow_origin: Option<String> },
    /// The request is answered with a refusal and reaches no RPC handler.
    Reject,
}

/// Mathematical model of an [`Admission`].
pub enum AdmissionView {
    Proceed { allow_origin: Option<Seq<char>> },
    Reject,
}

impl View for Admission {
    type V = AdmissionView;

    open spec fn view(&self) -> AdmissionView {
        match self {
            Admission::Proceed { allow_origin: Some(value) } => AdmissionView::Proceed {
                allow_origin: Some(value@),
            },
            Admission::Proceed { allow_origin: None } => AdmissionView::Proceed {
                allow_origin: None,
            },
            Admission::Reject => AdmissionView::Reject,
        }
    }
}

/// The admission that follows from a verdict.
pub open spec fn admission_of(verdict: VerdictView) -> AdmissionView {
    match verdict {
        VerdictView::NotRequired => AdmissionView::Proceed { allow_origin: None },
        VerdictView::Invalid => AdmissionView::Reject,
        VerdictView::Allow(origin) => AdmissionView::Proceed { allow_origin: Some(origin) },
    }
}

/// Turns a verdict into what the transport does: only an invalid origin is
/// refused, and only an allowed one is echoed back.
pub fn admission_for(verdict: CorsVerdict) -> (admission: Admission)
    ensures
        admission@ == admission_of(verdict@),
{
    match verdict {
        CorsVerdict::NotRequired => Admission::Proceed { allow_origin: None },
        CorsVerdict::Invalid => Admission::Reject,
        CorsVerdict::Allow(origin) => Admission::Proceed { allow_origin: Some(origin) },
    }
}

/// The list of allowed origins that the listener is to be configured with,
/// each written as the HTTP server crate reads it.
pub fn allowed_origins() -> (allowed: Vec<String>)
    ensures
        views_of(allowed@) == service_origins(),
{
    let mut allowed: Vec<String> = Vec::new();
    allowed.push("null".to_owned());
    assert(views_of(allowed@) =~= service_origins());
    allowed
}

/// Tells whether an origin can be handed to the validation.
pub fn is_plain(origin: &str) -> (answer: bool)
    ensures
        answer == plain(origin@),
{
    let length = origin.unicode_len();
    if length > MAX_ORIGIN_LEN {
        return false;
    }
    let mut index: usize = 0;
    while index < length
        invariant
            length == origin@.len(),
            index <= length,
            forall|i: int| 0 <= i < index ==> origin@[i] != '{',
        decreases length - index,
    {
        if origin.get_char(index) == '{' {
            return false;
        }
        index = index + 1;
    }
    true
}

/// Judges the origin of a request from its `Origin` and `Host` headers. An
/// origin that is not [`plain`] is judged invalid here; every other request
/// is judged by the HTTP server crate's validation.
pub fn check(origin: Option<&str>, host: Option<&str>) -> (verdict: CorsVerdict)
    ensures
        verdict@ == judgement(text_of(origin), text_of(host)),
        origin is Some && !plain(origin->0@) ==> verdict@ is Invalid,
        origin is None || plain(origin->0@) ==> verdict@ == cors_verdict(
            text_of(origin),
            text_of(host),
            service_origins(),
        ),
        verdict@ is NotRequired ==> origin is None || (host is Some && ends_with(
            origin->0@,
            host->0@,
        )),
{
    let handed_on = match origin {
        Some(text) => is_plain(text),
        None => true,
    };
    if handed_on {
        let allowed = allowed_origins();
        allow_origin(origin, host, &allowed)
    } else {
        CorsVerdict::Invalid
    }
}

/// Decides, from the `Origin` and `Host` headers of a request, whether it
/// goes on to the RPC layer.
///
/// A request without an origin goes on. One from the null origin goes on and
/// is answered with `Access-Control-Allow-Origin: null`. One that names any
/// other origin is refused before any RPC handler sees it. The one exemption
/// is that of the HTTP server crate for an origin on the server's own host:
/// such a request goes on without an allow-origin header, and it takes a
/// `Host` header that the origin ends with. So no origin but `null` is ever
/// echoed back.
pub fn screen(origin: Option<&str>, host: Option<&str>) -> (admission: Admission)
    ensures
        admission@ == admission_of(judgement(text_of(origin), text_of(host))),
        origin is Some && origin->0@ != null_origin() && !exempt_as_own_host(
            origin->0@,
            text_of(host),
        ) ==> admission@ is Reject,
        origin is Some && origin->0@ != null_origin() && !(host is Some && ends_with(
            origin->0@,
            host->0@,
        )) ==> admission@ is Reject,
        origin is Some && !plain(origin->0@) ==> admission@ is Reject,
        admission@ is Proceed && admission@->allow_origin is Some ==> admission@->allow_origin->0
            == null_origin() && text_of(origin) == Some(null_origin()),
{
    admission_for(check(origin, host))
}

} // verus!
