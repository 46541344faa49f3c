//! Turning user input (a search query or a URL) into a track, refusing
//! inputs that are empty, too long, hold control characters, or point at a
//! non-HTTP(S) scheme, embedded credentials or a local network address.
use super::{SourceKind, Track, TrackView};
use crate::text::{
    char_is_control, chars_of, is_control, seq_contains, str_contains, trim, trim_str,
};
use vstd::prelude::*;
use vstd::string::StringExecFns;
use vstd::utf8::encode_utf8;

verus! {

broadcast use vstd::string::group_string_axioms;

/// Why a source could not be resolved.
#[derive(Debug)]
pub enum SourceError {
    Invalid(String),
    Unavailable(String),
    Resolver(String),
}

/// A [`SourceError`] with its message as a character sequence.
pub enum SourceErrorView {
    Invalid(Seq<char>),
    Unavailable(Seq<char>),
    Resolver(Seq<char>),
}

impl View for SourceError {
    type V = SourceErrorView;

    open spec fn view(&self) -> SourceErrorView {
        match self {
            SourceError::Invalid(m) => SourceErrorView::Invalid(m@),
            SourceError::Unavailable(m) => SourceErrorView::Unavailable(m@),
            SourceError::Resolver(m) => SourceErrorView::Resolver(m@),
        }
    }
}

impl SourceError {
    /// The human-readable description of the error.
    pub fn message(&self) -> (s: String)
        ensures
            s@ == source_error_text(self@),
    {
        match self {
            SourceError::Invalid(m) => {
                let mut s = "invalid source: ".to_owned();
                s.append(m.as_str());
                s
            },
            SourceError::Unavailable(m) => {
                let mut s = "source unavailable: ".to_owned();
                s.append(m.as_str());
                s
            },
            SourceError::Resolver(m) => {
                let mut s = "resolver error: ".to_owned();
                s.append(m.as_str());
                s
            },
        }
    }
}

pub open spec fn source_error_text(e: SourceErrorView) -> Seq<char> {
    match e {
        SourceErrorView::Invalid(m) => "invalid source: "@ + m,
        SourceErrorView::Unavailable(m) => "source unavailable: "@ + m,
        SourceErrorView::Resolver(m) => "resolver error: "@ + m,
    }
}

/// Something that turns user input into tracks.
pub trait AudioSource {
    fn resolve(&self, input: &str, requested_by: u64) -> Result<Vec<Track>, SourceError>;
}

/// The host of a parsed URL.
pub enum UrlHost {
    Domain(String),
    Ipv4([u8; 4]),
    Ipv6([u8; 16]),
}

pub enum UrlHostView {
    Domain(Seq<char>),
    Ipv4(Seq<u8>),
    Ipv6(Seq<u8>),
}

/// The parts of a parsed URL that the resolver reads.
pub struct ParsedUrl {
    pub scheme: String,
    pub username: String,
    pub password: Option<String>,
    pub host: Option<UrlHost>,
}

pub struct UrlFacts {
    pub scheme: Seq<char>,
    pub username: Seq<char>,
    pub password: Option<Seq<char>>,
    pub host: Option<UrlHostView>,
}

impl View for UrlHost {
    type V = UrlHostView;

    open spec fn view(&self) -> UrlHostView {
        match self {
            UrlHost::Domain(d) => UrlHostView::Domain(d@),
            UrlHost::Ipv4(a) => UrlHostView::Ipv4(a@),
            UrlHost::Ipv6(a) => UrlHostView::Ipv6(a@),
        }
    }
}

impl View for ParsedUrl {
    type V = UrlFacts;

    open spec fn view(&self) -> UrlFacts {
        UrlFacts {
            scheme: self.scheme@,
            username: self.username@,
            password: super::opt_string_view(self.password),
            host: match self.host {
                Some(h) => Some(h@),
                None => None,
            },
        }
    }
}

/// What `url::Url::parse` makes of `input`: `None` when it refuses the
/// input, else the scheme, user name, password and host of the URL.
pub uninterp spec fn parse_url(input: Seq<char>) -> Option<UrlFacts>;

/// Calls `url::Url::parse` (WHATWG URL parsing) and reads the scheme,
/// user name, password and host of the result. The contract names the
/// outcome `parse_url(input)`: it depends on the input alone, and its rules
/// (the WHATWG URL standard) are not restated here.
#[verifier::external_body]
fn parse_url_parts(input: &str) -> (r: Option<ParsedUrl>)
    ensures
        match r {
            Some(u) => parse_url(input@) == Some(u@),
            None => parse_url(input@) is None,
        },
{
    match url::Url::parse(input) {
        Ok(u) => {
            let host = match u.host() {
                Some(url::Host::Domain(d)) => Some(UrlHost::Domain(d.to_owned())),
                Some(url::Host::Ipv4(a)) => Some(UrlHost::Ipv4(a.octets())),
                Some(url::Host::Ipv6(a)) => Some(UrlHost::Ipv6(a.octets())),
                None => None,
            };
            let password = match u.password() { Some(p) => Some(p.to_owned()), None => None };
            Some(ParsedUrl { scheme: u.scheme().to_owned(), username: u.username().to_owned(), password, host })
        },
        Err(_) => None,
    }
}

/// `10.0.0.0/8`, `172.16.0.0/12` and `192.168.0.0/16` (`Ipv4Addr::is_private`).
pub open spec fn ipv4_private(a: Seq<u8>) -> bool {
    ||| a[0] == 10
    ||| (a[0] == 172 && 16 <= a[1] <= 31)
    ||| (a[0] == 192 && a[1] == 168)
}

/// `127.0.0.0/8` (`Ipv4Addr::is_loopback`).
pub open spec fn ipv4_loopback(a: Seq<u8>) -> bool {
    a[0] == 127
}

/// `169.254.0.0/16` (`Ipv4Addr::is_link_local`).
pub open spec fn ipv4_link_local(a: Seq<u8>) -> bool {
    a[0] == 169 && a[1] == 254
}

/// `0.0.0.0` (`Ipv4Addr::is_unspecified`).
pub open spec fn ipv4_unspecified(a: Seq<u8>) -> bool {
    a[0] == 0 && a[1] == 0 && a[2] == 0 && a[3] == 0
}

/// `255.255.255.255` (`Ipv4Addr::is_broadcast`).
pub open spec fn ipv4_broadcast(a: Seq<u8>) -> bool {
    a[0] == 255 && a[1] == 255 && a[2] == 255 && a[3] == 255
}

/// `192.0.2.0/24`, `198.51.100.0/24` and `203.0.113.0/24`
/// (`Ipv4Addr::is_documentation`).
pub open spec fn ipv4_documentation(a: Seq<u8>) -> bool {
    ||| (a[0] == 192 && a[1] == 0 && a[2] == 2)
    ||| (a[0] == 198 && a[1] == 51 && a[2] == 100)
    ||| (a[0] == 203 && a[1] == 0 && a[2] == 113)
}

/// An IPv4 address that the resolver refuses as a destination.
pub open spec fn ipv4_local(a: Seq<u8>) -> bool {
    ||| ipv4_private(a)
    ||| ipv4_loopback(a)
    ||| ipv4_link_local(a)
    ||| ipv4_unspecified(a)
    ||| ipv4_broadcast(a)
    ||| ipv4_documentation(a)
}

/// `::1` (`Ipv6Addr::is_loopback`).
pub open spec fn ipv6_loopback(a: Seq<u8>) -> bool {
    &&& forall|i: int| 0 <= i < 15 ==> a[i] == 0
    &&& a[15] == 1
}

/// `::` (`Ipv6Addr::is_unspecified`).
pub open spec fn ipv6_unspecified(a: Seq<u8>) -> bool {
    forall|i: int| 0 <= i < 16 ==> a[i] == 0
}

/// `fc00::/7`, the unique local addresses.
pub open spec fn ipv6_unique_local(a: Seq<u8>) -> bool {
    a[0] == 0xfc || a[0] == 0xfd
}

/// `fe80::/10`, the link-local unicast addresses.
pub open spec fn ipv6_link_local(a: Seq<u8>) -> bool {
    a[0] == 0xfe && 0x80 <= a[1] <= 0xbf
}

/// An IPv6 address that the resolver refuses as a destination.
pub open spec fn ipv6_local(a: Seq<u8>) -> bool {
    ||| ipv6_loopback(a)
    ||| ipv6_unspecified(a)
    ||| ipv6_unique_local(a)
    ||| ipv6_link_local(a)
}

/// A host that is a local or private network address: an IPv4 or IPv6
/// address in one of the refused ranges. A domain is never refused here.
pub open spec fn host_is_local(h: Option<UrlHostView>) -> bool {
    match h {
        Some(UrlHostView::Ipv4(a)) => ipv4_local(a),
        Some(UrlHostView::Ipv6(a)) => ipv6_local(a),
        _ => false,
    }
}

pub fn ipv6_octets_are_local(a: &[u8; 16]) -> (b: bool)
    ensures
        b == ipv6_local(a@),
{
    let mut zeros = true;
    let mut i: usize = 0;
    while i < 15
        invariant
            i <= 15,
            zeros == (forall|k: int| 0 <= k < i ==> a@[k] == 0),
        decreases 15 - i,
    {
        if a[i] != 0 {
            zeros = false;
        }
        i = i + 1;
    }
    let loopback = zeros && a[15] == 1;
    let unspecified = zeros && a[15] == 0;
    proof {
        if !zeros {
            let k = choose|k: int| 0 <= k < 15 && a@[k] != 0;
            assert(!ipv6_unspecified(a@));
        }
    }
    let unique_local = a[0] == 0xfc || a[0] == 0xfd;
    let link_local = a[0] == 0xfe && 0x80 <= a[1] && a[1] <= 0xbf;
    loopback || unspecified || unique_local || link_local
}

/// Why a parsed URL is refused as a source, if it is: a scheme other than
/// `http` or `https`, embedded credentials, or a local destination, checked
/// in this order.
pub open spec fn url_refusal(u: UrlFacts) -> Option<Seq<char>> {
    if u.scheme != "http"@ && u.scheme != "https"@ {
        Some("only HTTP(S) sources are accepted"@)
    } else if u.username.len() != 0 || u.password is Some {
        Some("URL credentials are not accepted"@)
    } else if host_is_local(u.host) {
        Some("private or local network destinations are not accepted"@)
    } else {
        None
    }
}

pub fn octets_are_local(a: &[u8; 4]) -> (b: bool)
    ensures
        b == ipv4_local(a@),
{
    let a0 = a[0];
    let a1 = a[1];
    let a2 = a[2];
    let a3 = a[3];
    let private = a0 == 10 || (a0 == 172 && 16 <= a1 && a1 <= 31) || (a0 == 192 && a1 == 168);
    let loopback = a0 == 127;
    let link_local = a0 == 169 && a1 == 254;
    let unspecified = a0 == 0 && a1 == 0 && a2 == 0 && a3 == 0;
    let broadcast = a0 == 255 && a1 == 255 && a2 == 255 && a3 == 255;
    let documentation = (a0 == 192 && a1 == 0 && a2 == 2) || (a0 == 198 && a1 == 51 && a2 == 100)
        || (a0 == 203 && a1 == 0 && a2 == 113);
    private || loopback || link_local || unspecified || broadcast || documentation
}

/// The largest query, in UTF-8 bytes, that the resolver accepts.
pub const MAX_QUERY_BYTES: usize = 2048;

pub open spec fn has_control(s: Seq<char>) -> bool {
    exists|i: int| 0 <= i < s.len() && is_control(s[i])
}

/// The kind of source that a resolved input names.
pub open spec fn source_kind_of(value: Seq<char>, is_url: bool) -> SourceKind {
    if seq_contains(value, "youtube"@) {
        SourceKind::YouTube
    } else if seq_contains(value, "soundcloud"@) {
        SourceKind::SoundCloud
    } else if is_url {
        SourceKind::DirectUrl
    } else {
        SourceKind::Unknown
    }
}

/// What resolving `input` for `requested_by` gives: the single track it
/// names, or the reason it is refused. A URL is played as it is; any other
/// input becomes a search, with the `search://` scheme.
pub open spec fn resolve_outcome(input: Seq<char>, requested_by: u64) -> Result<TrackView, SourceErrorView> {
    let value = trim(input);
    if value.len() == 0 {
        Err(SourceErrorView::Invalid("empty query"@))
    } else if encode_utf8(value).len() > MAX_QUERY_BYTES || has_control(value) {
        Err(SourceErrorView::Invalid("query exceeds input limits"@))
    } else {
        let parsed = parse_url(value);
        if parsed is Some && url_refusal(parsed->0) is Some {
            Err(SourceErrorView::Invalid(url_refusal(parsed->0)->0))
        } else {
            let is_url = parsed is Some;
            let url = if is_url {
                value
            } else {
                "search://"@ + value
            };
            Ok(
                TrackView {
                    id: url,
                    title: value,
                    url,
                    author: None,
                    duration_secs: None,
                    source: source_kind_of(value, is_url),
                    requested_by,
                },
            )
        }
    }
}

/// The resolver that needs no network: URLs are checked and played as they
/// are, anything else becomes a search query.
pub struct BasicResolver;

fn invalid(msg: &str) -> (e: SourceError)
    ensures
        e@ == SourceErrorView::Invalid(msg@),
{
    SourceError::Invalid(msg.to_owned())
}

/// Checks a parsed URL before it is played: the scheme must be `http` or
/// `https`, the URL must carry no credentials, and its host must not be a
/// local or private address.
pub fn check_parsed_url(u: &ParsedUrl) -> (r: Result<(), SourceError>)
    ensures
        match url_refusal(u@) {
            None => r is Ok,
            Some(m) => r matches Err(e) && e@ == SourceErrorView::Invalid(m),
        },
{
    let http = "http".to_owned();
    let https = "https".to_owned();
    if !(u.scheme == http) && !(u.scheme == https) {
        return Err(invalid("only HTTP(S) sources are accepted"));
    }
    if !u.username.as_str().is_empty() || u.password.is_some() {
        return Err(invalid("URL credentials are not accepted"));
    }
    let local = match &u.host {
        Some(UrlHost::Ipv4(a)) => octets_are_local(a),
        Some(UrlHost::Ipv6(a)) => ipv6_octets_are_local(a),
        _ => false,
    };
    if local {
        return Err(invalid("private or local network destinations are not accepted"));
    }
    Ok(())
}

impl BasicResolver {
    /// Whether some character of `s` is a control character.
    fn any_control(s: &str) -> (b: bool)
        ensures
            b == has_control(s@),
    {
        let v = chars_of(s);
        let mut i: usize = 0;
        while i < v.len()
            invariant
                v@ == s@,
                i <= v@.len(),
                forall|k: int| 0 <= k < i ==> !is_control(#[trigger] v@[k]),
            decreases v@.len() - i,
        {
            if char_is_control(v[i]) {
                return true;
            }
            i = i + 1;
        }
        false
    }
}

impl AudioSource for BasicResolver {
    fn resolve(&self, input: &str, requested_by: u64) -> (r: Result<Vec<Track>, SourceError>)
        ensures
            match (r, resolve_outcome(input@, requested_by)) {
                (Ok(v), Ok(t)) => v@.len() == 1 && v@[0]@ == t,
                (Err(e), Err(ev)) => e@ == ev,
                _ => false,
            },
    {
        let value = trim_str(input);
        if value.is_empty() {
            return Err(invalid("empty query"));
        }
        if value.as_bytes().len() > MAX_QUERY_BYTES || Self::any_control(value) {
            return Err(invalid("query exceeds input limits"));
        }
        let parsed = parse_url_parts(value);
        if let Some(u) = &parsed {
            match check_parsed_url(u) {
                Ok(()) => {},
                Err(e) => {
                    return Err(e);
                },
            }
        }
        let is_url = parsed.is_some();
        let resolved_url = if is_url {
            value.to_owned()
        } else {
            let mut s = "search://".to_owned();
            s.append(value);
            s
        };
        let mut track = Track::new(value, resolved_url.as_str(), requested_by);
        track.source = if str_contains(value, "youtube") {
            SourceKind::YouTube
        } else if str_contains(value, "soundcloud") {
            SourceKind::SoundCloud
        } else if is_url {
            SourceKind::DirectUrl
        } else {
            SourceKind::Unknown
        };
        let mut out: Vec<Track> = Vec::new();
        out.push(track);
        Ok(out)
    }
}

/// A resolved track never points at a refused destination: either the input
/// is not a URL and becomes a `search://` query, or it is an HTTP(S) URL
/// without credentials whose host is not a local or private IPv4 or IPv6
/// address.
/// The track's id and url agree, its title is the trimmed input, and it is
/// attributed to the requester.
pub proof fn law_resolved_destination_is_safe(input: Seq<char>, requested_by: u64)
    ensures
        resolve_outcome(input, requested_by) matches Ok(t) ==> {
            &&& t.id == t.url
            &&& t.title == trim(input)
            &&& t.requested_by == requested_by
            &&& t.author is None
            &&& t.duration_secs is None
            &&& match parse_url(trim(input)) {
                None => t.url == "search://"@ + trim(input),
                Some(u) => {
                    &&& u.scheme == "http"@ || u.scheme == "https"@
                    &&& u.username.len() == 0
                    &&& u.password is None
                    &&& !host_is_local(u.host)
                    &&& url_refusal(u) is None
                    &&& t.url == trim(input)
                },
            }
        },
{
}

/// A query made of printable characters (none below U+0020 and none in
/// U+007F..=U+009F), accented letters included, that is not blank and fits in
/// [`MAX_QUERY_BYTES`] is never refused as invalid input: when it is not a
/// URL it resolves to a search for exactly the trimmed text, and it is
/// refused only as a URL whose scheme, credentials or host are not accepted.
pub proof fn law_printable_query_is_accepted(input: Seq<char>, requested_by: u64)
    requires
        trim(input).len() > 0,
        encode_utf8(trim(input)).len() <= MAX_QUERY_BYTES,
        forall|i: int|
            0 <= i < trim(input).len() ==> {
                let n = #[trigger] trim(input)[i] as u32;
                (0x20 <= n && n < 0x7f) || 0xa0 <= n
            },
    ensures
        !has_control(trim(input)),
        parse_url(trim(input)) is None ==> resolve_outcome(input, requested_by) == Ok::<
            TrackView,
            SourceErrorView,
        >(
            TrackView {
                id: "search://"@ + trim(input),
                title: trim(input),
                url: "search://"@ + trim(input),
                author: None,
                duration_secs: None,
                source: source_kind_of(trim(input), false),
                requested_by,
            },
        ),
        resolve_outcome(input, requested_by) is Err ==> (parse_url(trim(input)) matches Some(u)
            && url_refusal(u) is Some),
{
    let value = trim(input);
    assert forall|i: int| 0 <= i < value.len() implies !is_control(#[trigger] value[i]) by {
        let n = value[i] as u32;
        assert((0x20 <= n && n < 0x7f) || 0xa0 <= n);
    }
}

/// Inputs that are blank, longer than [`MAX_QUERY_BYTES`] or hold a control
/// character are always refused as invalid.
pub proof fn law_resolver_rejects_bad_input(input: Seq<char>, requested_by: u64)
    ensures
        (trim(input).len() == 0 || encode_utf8(trim(input)).len() > MAX_QUERY_BYTES || has_control(
            trim(input),
        )) ==> resolve_outcome(input, requested_by) is Err,
        resolve_outcome(input, requested_by) matches Err(e) ==> e is Invalid,
{
}

} // verus!
