//! The header block of a request: each line is matched, once both are in lower case,
//! against a fixed table of header names tried in priority order; the last line of a
//! header decides its value.
use vstd::prelude::*;

use crate::fields::{
    after_prefix, generate_field_string, generate_field_string_vec, generate_field_u64,
};
use crate::text::{
    lower_of, lowercase, split, split_chars, split_chars_str, split_once, split_once_str,
    split_str, starts_with_exec, starts_with_folded, contains, join, lemma_split_join_lines,
};

verus! {

/// How many header names the table holds.
pub const HEADER_COUNT: usize = 32;

/// The header names that a request may carry, in the order in which a line is tried
/// against them.
#[derive(Debug, PartialEq, Eq, Structural, Clone, Copy)]
pub enum HeaderName {
    AIm,
    Accept,
    AcceptCharset,
    AcceptEncoding,
    AcceptLanguage,
    AcceptDatetime,
    AccessControlRequestMethod,
    Authorization,
    CacheControl,
    Connection,
    ContentLength,
    ContentMd5,
    ContentType,
    Cookie,
    Date,
    Expect,
    Forwarded,
    From,
    Host,
    MaxForwards,
    Origin,
    Pragma,
    ProxyAuthorization,
    Range,
    Referer,
    Te,
    UserAgent,
    Via,
    Warning,
    Version,
    UpgradeInsecureRequests,
    Dnt,
}

/// The prefix of a line that carries the header `k`.
pub open spec fn header_pattern(k: HeaderName) -> Seq<char> {
    match k {
        HeaderName::AIm => "A-IM: "@,
        HeaderName::Accept => "Accept: "@,
        HeaderName::AcceptCharset => "Accept-Charset: "@,
        HeaderName::AcceptEncoding => "Accept-Encoding: "@,
        HeaderName::AcceptLanguage => "Accept-Language: "@,
        HeaderName::AcceptDatetime => "Accept-Datetime: "@,
        HeaderName::AccessControlRequestMethod => "Access-Control-Request-Method: "@,
        HeaderName::Authorization => "Authorization: "@,
        HeaderName::CacheControl => "Cache-Control: "@,
        HeaderName::Connection => "Connection: "@,
        HeaderName::ContentLength => "Content-Length: "@,
        HeaderName::ContentMd5 => "Content-MD5: "@,
        HeaderName::ContentType => "Content-Type: "@,
        HeaderName::Cookie => "Cookie: "@,
        HeaderName::Date => "Date: "@,
        HeaderName::Expect => "Expect: "@,
        HeaderName::Forwarded => "Forwarded: "@,
        HeaderName::From => "From: "@,
        HeaderName::Host => "Host: "@,
        HeaderName::MaxForwards => "Max-Forwards: "@,
        HeaderName::Origin => "Origin: "@,
        HeaderName::Pragma => "Pragma: "@,
        HeaderName::ProxyAuthorization => "Proxy-Authorization: "@,
        HeaderName::Range => "Range: "@,
        HeaderName::Referer => "Referer: "@,
        HeaderName::Te => "TE: "@,
        HeaderName::UserAgent => "User-Agent: "@,
        HeaderName::Via => "Via: "@,
        HeaderName::Warning => "Warning: "@,
        HeaderName::Version => "HTTP/"@,
        HeaderName::UpgradeInsecureRequests => "Upgrade-Insecure-Requests: "@,
        HeaderName::Dnt => "DNT: "@,
    }
}

/// The header name at position `i` of the priority order.
pub open spec fn header_at(i: int) -> HeaderName {
    if i == 0 {
        HeaderName::AIm
    } else if i == 1 {
        HeaderName::Accept
    } else if i == 2 {
        HeaderName::AcceptCharset
    } else if i == 3 {
        HeaderName::AcceptEncoding
    } else if i == 4 {
        HeaderName::AcceptLanguage
    } else if i == 5 {
        HeaderName::AcceptDatetime
    } else if i == 6 {
        HeaderName::AccessControlRequestMethod
    } else if i == 7 {
        HeaderName::Authorization
    } else if i == 8 {
        HeaderName::CacheControl
    } else if i == 9 {
        HeaderName::Connection
    } else if i == 10 {
        HeaderName::ContentLength
    } else if i == 11 {
        HeaderName::ContentMd5
    } else if i == 12 {
        HeaderName::ContentType
    } else if i == 13 {
        HeaderName::Cookie
    } else if i == 14 {
        HeaderName::Date
    } else if i == 15 {
        HeaderName::Expect
    } else if i == 16 {
        HeaderName::Forwarded
    } else if i == 17 {
        HeaderName::From
    } else if i == 18 {
        HeaderName::Host
    } else if i == 19 {
        HeaderName::MaxForwards
    } else if i == 20 {
        HeaderName::Origin
    } else if i == 21 {
        HeaderName::Pragma
    } else if i == 22 {
        HeaderName::ProxyAuthorization
    } else if i == 23 {
        HeaderName::Range
    } else if i == 24 {
        HeaderName::Referer
    } else if i == 25 {
        HeaderName::Te
    } else if i == 26 {
        HeaderName::UserAgent
    } else if i == 27 {
        HeaderName::Via
    } else if i == 28 {
        HeaderName::Warning
    } else if i == 29 {
        HeaderName::Version
    } else if i == 30 {
        HeaderName::UpgradeInsecureRequests
    } else {
        HeaderName::Dnt
    }
}

/// The first header name, from position `i` of the priority order on, whose pattern
/// begins `line`.
pub open spec fn kind_from(line: Seq<char>, i: int) -> Option<HeaderName>
    decreases HEADER_COUNT - i,
{
    if i < 0 || i >= HEADER_COUNT {
        None
    } else if starts_with_folded(line, header_pattern(header_at(i))) {
        Some(header_at(i))
    } else {
        kind_from(line, i + 1)
    }
}

/// The header that `line` carries: the first in priority order whose pattern begins it.
pub open spec fn kind_of(line: Seq<char>) -> Option<HeaderName> {
    kind_from(line, 0)
}

/// What a line that carries `k` holds after the header's pattern.
pub open spec fn line_value(line: Seq<char>, k: HeaderName) -> Seq<char> {
    after_prefix(line, header_pattern(k))
}

/// The last of `lines` that carries `k`.
pub open spec fn last_line_of(lines: Seq<Seq<char>>, k: HeaderName) -> Option<Seq<char>>
    decreases lines.len(),
{
    if lines.len() == 0 {
        None
    } else if kind_of(lines.last()) == Some(k) {
        Some(lines.last())
    } else {
        last_line_of(lines.drop_last(), k)
    }
}

/// The value of `k` in `lines`: that of its last line, if any.
pub open spec fn header_value(lines: Seq<Seq<char>>, k: HeaderName) -> Option<Seq<char>> {
    match last_line_of(lines, k) {
        Some(l) => Some(line_value(l, k)),
        None => None,
    }
}

/// The value of a header held as text: empty when no line carries it.
pub open spec fn text_value(lines: Seq<Seq<char>>, k: HeaderName) -> Seq<char> {
    match header_value(lines, k) {
        Some(v) => v,
        None => Seq::empty(),
    }
}

/// `Accept`: its value cut at every `;` and `,`.
pub open spec fn accept_value(lines: Seq<Seq<char>>) -> Seq<Seq<char>> {
    match header_value(lines, HeaderName::Accept) {
        Some(v) => split_chars(v, ';', ','),
        None => Seq::empty(),
    }
}

/// `Accept-Encoding`: its value cut at every space.
pub open spec fn accept_encoding_value(lines: Seq<Seq<char>>) -> Seq<Seq<char>> {
    match header_value(lines, HeaderName::AcceptEncoding) {
        Some(v) => split(v, " "@),
        None => Seq::empty(),
    }
}

/// The value of a decimal digit.
pub open spec fn digit_value(c: char) -> int {
    c as int - '0' as int
}

/// The number that the decimal digits `s` write.
pub open spec fn digits_value(s: Seq<char>) -> int
    decreases s.len(),
{
    if s.len() == 0 {
        0
    } else {
        digits_value(s.drop_last()) * 10 + digit_value(s.last())
    }
}

pub open spec fn all_digits(s: Seq<char>) -> bool {
    forall|i: int| 0 <= i < s.len() ==> '0' <= #[trigger] s[i] <= '9'
}

/// `s` without one leading `+`.
pub open spec fn unsigned_digits(s: Seq<char>) -> Seq<char> {
    if s.len() > 0 && s[0] == '+' {
        s.subrange(1, s.len() as int)
    } else {
        s
    }
}

/// The unsigned 64-bit number that `s` writes in decimal, with an optional leading
/// `+`, as `str::parse::<u64>` reads it; `None` where it writes none or one too large.
pub open spec fn decimal_u64(s: Seq<char>) -> Option<u64> {
    let d = unsigned_digits(s);
    if d.len() > 0 && all_digits(d) && digits_value(d) <= u64::MAX {
        Some(digits_value(d) as u64)
    } else {
        None
    }
}

/// `Content-Length`: the number its value writes, or zero where it writes none.
pub open spec fn content_length_value(lines: Seq<Seq<char>>) -> u64 {
    match header_value(lines, HeaderName::ContentLength) {
        Some(v) => match decimal_u64(v) {
            Some(n) => n,
            None => 0,
        },
        None => 0,
    }
}

/// The boundary token of the `Content-Type` value `v`: what follows its first
/// `; boundary=`, empty where it has none.
pub open spec fn boundary_of(v: Seq<char>) -> Seq<char> {
    match split_once(v, "; boundary="@) {
        Some((media, bounds)) => bounds,
        None => Seq::empty(),
    }
}

/// The media type of the `Content-Type` value `v`: `v` without its trailing
/// `; boundary=` parameter.
pub open spec fn media_type_of(v: Seq<char>) -> Seq<char> {
    match split_once(v, "; boundary="@) {
        Some((media, bounds)) => media,
        None => v,
    }
}

/// The lines that carry no known header, in order.
pub open spec fn unmatched(lines: Seq<Seq<char>>) -> Seq<Seq<char>>
    decreases lines.len(),
{
    if lines.len() == 0 {
        Seq::empty()
    } else {
        unmatched(lines.drop_last()) + (if kind_of(lines.last()) is None {
            seq![lines.last()]
        } else {
            Seq::empty()
        })
    }
}

/// Headers whose value is stored as text, as it stands after the pattern.
pub open spec fn is_text_kind(k: HeaderName) -> bool {
    !(k is Accept || k is AcceptEncoding || k is ContentLength || k is ContentType)
}

/// The headers of a request.
pub struct RequestHeaders {
    /// Acceptable instance-manipulations for the request
    pub acceptable_instance_manipulations: String,
    /// Media types that are acceptable for the response
    pub accept: Vec<String>,
    /// Character sets that are acceptable
    pub accept_charset: String,
    /// Acceptable encodings
    pub accept_encoding: Vec<String>,
    /// Acceptable human languages for the response
    pub accept_language: String,
    /// Acceptable version in time
    pub accept_datetime: String,
    /// Starts a request for cross-origin resource sharing with Origin
    pub access_control_request_method: String,
    /// Authentication credentials for HTTP authentication
    pub authorization: String,
    /// Directives for the caching mechanisms along the request-response chain
    pub cache_control: String,
    /// Control options for the current connection
    pub connection: String,
    /// The length of the request body in octets
    pub content_length: u64,
    /// A Base64-encoded binary MD5 sum of the request body
    pub content_md5: String,
    /// The media type of the request body, without its boundary parameter
    pub content_type: String,
    /// The multipart boundary token of `Content-Type`, empty when there is none
    pub content_bounds: String,
    /// An HTTP cookie previously sent by the server
    pub cookie: String,
    /// The date and time at which the message was originated
    pub date: String,
    /// Server behaviours that the client requires
    pub expect: String,
    /// Information on a client that connects through an HTTP proxy
    pub forwarded: String,
    /// The email address of the user making the request
    pub from: String,
    /// The domain name of the server and the TCP port on which it listens
    pub host: String,
    /// Limit on the number of times the message can be forwarded
    pub max_forwards: String,
    /// Starts a request for cross-origin resource sharing
    pub origin: String,
    /// Implementation-specific fields
    pub pragma: String,
    /// Authorization credentials for connecting to a proxy
    pub proxy_authorization: String,
    /// Request only part of an entity
    pub range: String,
    /// The address of the previous web page
    pub referer: String,
    /// The transfer encodings the user agent is willing to accept (`TE`)
    pub transfer_encodings: String,
    /// The user agent string
    pub user_agent: String,
    /// Proxies through which the request was sent
    pub via: String,
    /// A general warning about possible problems with the entity body
    pub warning: String,
    /// The HTTP protocol version, the text after `HTTP/`
    pub version: String,
    /// Preference for a redirection to HTTPS
    pub upgrade_insecure_requests: String,
    /// Request to disable tracking of the user
    pub dnt: String,
    /// Header lines that match no known header, in order
    pub other: Vec<String>,
}

impl RequestHeaders {
    /// The field that holds the header `k`, for a header held as text.
    pub open spec fn text_field(&self, k: HeaderName) -> Seq<char> {
        match k {
            HeaderName::AIm => self.acceptable_instance_manipulations@,
            HeaderName::AcceptCharset => self.accept_charset@,
            HeaderName::AcceptLanguage => self.accept_language@,
            HeaderName::AcceptDatetime => self.accept_datetime@,
            HeaderName::AccessControlRequestMethod => self.access_control_request_method@,
            HeaderName::Authorization => self.authorization@,
            HeaderName::CacheControl => self.cache_control@,
            HeaderName::Connection => self.connection@,
            HeaderName::ContentMd5 => self.content_md5@,
            HeaderName::Cookie => self.cookie@,
            HeaderName::Date => self.date@,
            HeaderName::Expect => self.expect@,
            HeaderName::Forwarded => self.forwarded@,
            HeaderName::From => self.from@,
            HeaderName::Host => self.host@,
            HeaderName::MaxForwards => self.max_forwards@,
            HeaderName::Origin => self.origin@,
            HeaderName::Pragma => self.pragma@,
            HeaderName::ProxyAuthorization => self.proxy_authorization@,
            HeaderName::Range => self.range@,
            HeaderName::Referer => self.referer@,
            HeaderName::Te => self.transfer_encodings@,
            HeaderName::UserAgent => self.user_agent@,
            HeaderName::Via => self.via@,
            HeaderName::Warning => self.warning@,
            HeaderName::Version => self.version@,
            HeaderName::UpgradeInsecureRequests => self.upgrade_insecure_requests@,
            HeaderName::Dnt => self.dnt@,
            _ => Seq::empty(),
        }
    }

    /// These headers are what the header lines `lines` give.
    pub open spec fn holds_lines(&self, lines: Seq<Seq<char>>) -> bool {
        &&& forall|k: HeaderName| #[trigger]
            is_text_kind(k) ==> self.text_field(k) == text_value(lines, k)
        &&& self.accept.deep_view() == accept_value(lines)
        &&& self.accept_encoding.deep_view() == accept_encoding_value(lines)
        &&& self.content_length == content_length_value(lines)
        &&& self.content_type@ == media_type_of(text_value(lines, HeaderName::ContentType))
        &&& self.content_bounds@ == boundary_of(text_value(lines, HeaderName::ContentType))
        &&& self.other.deep_view() == unmatched(lines)
    }

    /// These headers are what the header block `raw` gives, its lines cut at CRLF.
    pub open spec fn parsed_from(&self, raw: Seq<char>) -> bool {
        self.holds_lines(split(raw, "\r\n"@))
    }
}

impl HeaderName {
    /// The header name at position `i` of the priority order.
    pub fn at(i: usize) -> (r: HeaderName)
        requires
            i < HEADER_COUNT,
        ensures
            r == header_at(i as int),
    {
        match i {
            0 => HeaderName::AIm,
            1 => HeaderName::Accept,
            2 => HeaderName::AcceptCharset,
            3 => HeaderName::AcceptEncoding,
            4 => HeaderName::AcceptLanguage,
            5 => HeaderName::AcceptDatetime,
            6 => HeaderName::AccessControlRequestMethod,
            7 => HeaderName::Authorization,
            8 => HeaderName::CacheControl,
            9 => HeaderName::Connection,
            10 => HeaderName::ContentLength,
            11 => HeaderName::ContentMd5,
            12 => HeaderName::ContentType,
            13 => HeaderName::Cookie,
            14 => HeaderName::Date,
            15 => HeaderName::Expect,
            16 => HeaderName::Forwarded,
            17 => HeaderName::From,
            18 => HeaderName::Host,
            19 => HeaderName::MaxForwards,
            20 => HeaderName::Origin,
            21 => HeaderName::Pragma,
            22 => HeaderName::ProxyAuthorization,
            23 => HeaderName::Range,
            24 => HeaderName::Referer,
            25 => HeaderName::Te,
            26 => HeaderName::UserAgent,
            27 => HeaderName::Via,
            28 => HeaderName::Warning,
            29 => HeaderName::Version,
            30 => HeaderName::UpgradeInsecureRequests,
            _ => HeaderName::Dnt,
        }
    }

    /// The prefix of a line that carries this header.
    pub fn pattern(&self) -> (r: &'static str)
        ensures
            r@ == header_pattern(*self),
    {
        match *self {
            HeaderName::AIm => "A-IM: ",
            HeaderName::Accept => "Accept: ",
            HeaderName::AcceptCharset => "Accept-Charset: ",
            HeaderName::AcceptEncoding => "Accept-Encoding: ",
            HeaderName::AcceptLanguage => "Accept-Language: ",
            HeaderName::AcceptDatetime => "Accept-Datetime: ",
            HeaderName::AccessControlRequestMethod => "Access-Control-Request-Method: ",
            HeaderName::Authorization => "Authorization: ",
            HeaderName::CacheControl => "Cache-Control: ",
            HeaderName::Connection => "Connection: ",
            HeaderName::ContentLength => "Content-Length: ",
            HeaderName::ContentMd5 => "Content-MD5: ",
            HeaderName::ContentType => "Content-Type: ",
            HeaderName::Cookie => "Cookie: ",
            HeaderName::Date => "Date: ",
            HeaderName::Expect => "Expect: ",
            HeaderName::Forwarded => "Forwarded: ",
            HeaderName::From => "From: ",
            HeaderName::Host => "Host: ",
            HeaderName::MaxForwards => "Max-Forwards: ",
            HeaderName::Origin => "Origin: ",
            HeaderName::Pragma => "Pragma: ",
            HeaderName::ProxyAuthorization => "Proxy-Authorization: ",
            HeaderName::Range => "Range: ",
            HeaderName::Referer => "Referer: ",
            HeaderName::Te => "TE: ",
            HeaderName::UserAgent => "User-Agent: ",
            HeaderName::Via => "Via: ",
            HeaderName::Warning => "Warning: ",
            HeaderName::Version => "HTTP/",
            HeaderName::UpgradeInsecureRequests => "Upgrade-Insecure-Requests: ",
            HeaderName::Dnt => "DNT: ",
        }
    }
}

impl Default for RequestHeaders {
    fn default() -> (r: RequestHeaders)
        ensures
            r.holds_lines(Seq::empty()),
    {
        let r = RequestHeaders {
            acceptable_instance_manipulations: String::new(),
            accept: Vec::new(),
            accept_charset: String::new(),
            accept_encoding: Vec::new(),
            accept_language: String::new(),
            accept_datetime: String::new(),
            access_control_request_method: String::new(),
            authorization: String::new(),
            cache_control: String::new(),
            connection: String::new(),
            content_length: 0,
            content_md5: String::new(),
            content_type: String::new(),
            content_bounds: String::new(),
            cookie: String::new(),
            date: String::new(),
            expect: String::new(),
            forwarded: String::new(),
            from: String::new(),
            host: String::new(),
            max_forwards: String::new(),
            origin: String::new(),
            pragma: String::new(),
            proxy_authorization: String::new(),
            range: String::new(),
            referer: String::new(),
            transfer_encodings: String::new(),
            user_agent: String::new(),
            via: String::new(),
            warning: String::new(),
            version: String::new(),
            upgrade_insecure_requests: String::new(),
            dnt: String::new(),
            other: Vec::new(),
        };
        assert(r.accept.deep_view() =~= Seq::<Seq<char>>::empty());
        assert(r.accept_encoding.deep_view() =~= Seq::<Seq<char>>::empty());
        assert(r.other.deep_view() =~= Seq::<Seq<char>>::empty());
        r
    }
}

impl RequestHeaders {
    /// Stores `line`, which carries the text header `k`, in the field of `k`.
    fn set_text(&mut self, k: HeaderName, line: &str)
        requires
            is_text_kind(k),
            starts_with_folded(line@, header_pattern(k)),
        ensures
            final(self).text_field(k) == line_value(line@, k),
            forall|j: HeaderName| j != k ==> final(self).text_field(j) == old(self).text_field(j),
            final(self).accept == old(self).accept,
            final(self).accept_encoding == old(self).accept_encoding,
            final(self).content_length == old(self).content_length,
            final(self).content_type == old(self).content_type,
            final(self).content_bounds == old(self).content_bounds,
            final(self).other == old(self).other,
    {
        let pattern = k.pattern();
        match k {
            HeaderName::AIm => {
                generate_field_string(&mut self.acceptable_instance_manipulations, line, pattern);
            }
            HeaderName::AcceptCharset => {
                generate_field_string(&mut self.accept_charset, line, pattern);
            }
            HeaderName::AcceptLanguage => {
                generate_field_string(&mut self.accept_language, line, pattern);
            }
            HeaderName::AcceptDatetime => {
                generate_field_string(&mut self.accept_datetime, line, pattern);
            }
            HeaderName::AccessControlRequestMethod => {
                generate_field_string(&mut self.access_control_request_method, line, pattern);
            }
            HeaderName::Authorization => {
                generate_field_string(&mut self.authorization, line, pattern);
            }
            HeaderName::CacheControl => {
                generate_field_string(&mut self.cache_control, line, pattern);
            }
            HeaderName::Connection => {
                generate_field_string(&mut self.connection, line, pattern);
            }
            HeaderName::ContentMd5 => {
                generate_field_string(&mut self.content_md5, line, pattern);
            }
            HeaderName::Cookie => {
                generate_field_string(&mut self.cookie, line, pattern);
            }
            HeaderName::Date => {
                generate_field_string(&mut self.date, line, pattern);
            }
            HeaderName::Expect => {
                generate_field_string(&mut self.expect, line, pattern);
            }
            HeaderName::Forwarded => {
                generate_field_string(&mut self.forwarded, line, pattern);
            }
            HeaderName::From => {
                generate_field_string(&mut self.from, line, pattern);
            }
            HeaderName::Host => {
                generate_field_string(&mut self.host, line, pattern);
            }
            HeaderName::MaxForwards => {
                generate_field_string(&mut self.max_forwards, line, pattern);
            }
            HeaderName::Origin => {
                generate_field_string(&mut self.origin, line, pattern);
            }
            HeaderName::Pragma => {
                generate_field_string(&mut self.pragma, line, pattern);
            }
            HeaderName::ProxyAuthorization => {
                generate_field_string(&mut self.proxy_authorization, line, pattern);
            }
            HeaderName::Range => {
                generate_field_string(&mut self.range, line, pattern);
            }
            HeaderName::Referer => {
                generate_field_string(&mut self.referer, line, pattern);
            }
            HeaderName::Te => {
                generate_field_string(&mut self.transfer_encodings, line, pattern);
            }
            HeaderName::UserAgent => {
                generate_field_string(&mut self.user_agent, line, pattern);
            }
            HeaderName::Via => {
                generate_field_string(&mut self.via, line, pattern);
            }
            HeaderName::Warning => {
                generate_field_string(&mut self.warning, line, pattern);
            }
            HeaderName::Version => {
                generate_field_string(&mut self.version, line, pattern);
            }
            HeaderName::UpgradeInsecureRequests => {
                generate_field_string(&mut self.upgrade_insecure_requests, line, pattern);
            }
            HeaderName::Dnt => {
                generate_field_string(&mut self.dnt, line, pattern);
            }
            _ => {},
        }
    }
}

/// Only the last line of a header counts: where line `i` carries `k` and no later line
/// does, the value of `k` is what line `i` holds after the pattern.
pub proof fn lemma_last_line_wins(lines: Seq<Seq<char>>, k: HeaderName, i: int)
    requires
        0 <= i < lines.len(),
        kind_of(lines[i]) == Some(k),
        forall|j: int| i < j < lines.len() ==> kind_of(#[trigger] lines[j]) != Some(k),
    ensures
        header_value(lines, k) == Some(line_value(lines[i], k)),
    decreases lines.len(),
{
    if i < lines.len() - 1 {
        assert(kind_of(lines[lines.len() - 1]) != Some(k));
        let rest = lines.drop_last();
        assert forall|j: int| i < j < rest.len() implies kind_of(#[trigger] rest[j]) != Some(k) by {
            assert(rest[j] == lines[j]);
        }
        lemma_last_line_wins(rest, k, i);
    }
}

/// In parsed headers, a header held as text has the value of its last line, whatever
/// the lines around it: of two lines that carry it, the later one wins.
pub proof fn lemma_later_header_wins(h: RequestHeaders, raw: Seq<char>, k: HeaderName, i: int)
    requires
        h.parsed_from(raw),
        is_text_kind(k),
        0 <= i < split(raw, "\r\n"@).len(),
        kind_of(split(raw, "\r\n"@)[i]) == Some(k),
        forall|j: int|
            i < j < split(raw, "\r\n"@).len() ==> kind_of(#[trigger] split(raw, "\r\n"@)[j])
                != Some(k),
    ensures
        h.text_field(k) == line_value(split(raw, "\r\n"@)[i], k),
{
    lemma_last_line_wins(split(raw, "\r\n"@), k, i);
}

/// The value of a header held as text does not depend on the order of the lines: of a
/// block joined with CRLF from any lines before and after the one line that carries
/// `k`, the parsed headers hold that line's value.
pub proof fn lemma_header_value_independent_of_order(
    h: RequestHeaders,
    pre: Seq<Seq<char>>,
    line: Seq<char>,
    post: Seq<Seq<char>>,
    k: HeaderName,
)
    requires
        is_text_kind(k),
        kind_of(line) == Some(k),
        forall|i: int| 0 <= i < pre.len() ==> kind_of(#[trigger] pre[i]) != Some(k),
        forall|i: int| 0 <= i < post.len() ==> kind_of(#[trigger] post[i]) != Some(k),
        forall|i: int|
            0 <= i < (pre.push(line) + post).len() ==> !contains(
                #[trigger] (pre.push(line) + post)[i],
                "\r\n"@,
            ),
        h.parsed_from(join(pre.push(line) + post, "\r\n"@)),
    ensures
        h.text_field(k) == line_value(line, k),
{
    let lines = pre.push(line) + post;
    lemma_split_join_lines(lines);
    let i = pre.len() as int;
    assert(lines[i] == line);
    assert forall|j: int| i < j < lines.len() implies kind_of(#[trigger] lines[j]) != Some(k) by {
        assert(lines[j] == post[j - i - 1]);
    }
    lemma_last_line_wins(lines, k, i);
}

/// A line that carries `k` begins with the pattern of `k`.
pub proof fn lemma_kind_matches(line: Seq<char>, i: int, k: HeaderName)
    requires
        kind_from(line, i) == Some(k),
    ensures
        starts_with_folded(line, header_pattern(k)),
    decreases HEADER_COUNT - i,
{
    if 0 <= i < HEADER_COUNT && !starts_with_folded(line, header_pattern(header_at(i))) {
        lemma_kind_matches(line, i + 1, k);
    }
}

/// The header that `line` carries, if any.
pub fn header_kind(line: &str) -> (r: Option<HeaderName>)
    ensures
        r == kind_of(line@),
{
    let lower = lowercase(line);
    let mut i: usize = 0;
    while i < HEADER_COUNT
        invariant
            lower@ == lower_of(line@),
            i <= HEADER_COUNT,
            kind_from(line@, 0) == kind_from(line@, i as int),
        decreases HEADER_COUNT - i,
    {
        let k = HeaderName::at(i);
        let p = lowercase(k.pattern());
        if starts_with_exec(lower.as_str(), p.as_str()) {
            return Some(k);
        }
        i = i + 1;
    }
    None
}

impl RequestHeaders {
    /// Stores the `Content-Type` line `line`: its media type, and its boundary token.
    fn set_content_type(&mut self, line: &str)
        requires
            starts_with_folded(line@, header_pattern(HeaderName::ContentType)),
        ensures
            final(self).content_type@ == media_type_of(line_value(line@, HeaderName::ContentType)),
            final(self).content_bounds@ == boundary_of(line_value(line@, HeaderName::ContentType)),
            forall|j: HeaderName| final(self).text_field(j) == old(self).text_field(j),
            final(self).accept == old(self).accept,
            final(self).accept_encoding == old(self).accept_encoding,
            final(self).content_length == old(self).content_length,
            final(self).other == old(self).other,
    {
        let mut v = String::new();
        generate_field_string(&mut v, line, HeaderName::ContentType.pattern());
        let (media, bounds) = match split_once_str(v.as_str(), "; boundary=") {
            Some((m, b)) => (m, b),
            None => (v, String::new()),
        };
        self.content_type = media;
        self.content_bounds = bounds;
    }

    /// Stores the `Accept` line `line`: its value cut at every `;` and `,`.
    fn set_accept(&mut self, line: &str)
        requires
            starts_with_folded(line@, header_pattern(HeaderName::Accept)),
        ensures
            final(self).accept.deep_view() == split_chars(
                line_value(line@, HeaderName::Accept),
                ';',
                ',',
            ),
            forall|j: HeaderName| final(self).text_field(j) == old(self).text_field(j),
            final(self).accept_encoding == old(self).accept_encoding,
            final(self).content_length == old(self).content_length,
            final(self).content_type == old(self).content_type,
            final(self).content_bounds == old(self).content_bounds,
            final(self).other == old(self).other,
    {
        let mut v = String::new();
        generate_field_string(&mut v, line, HeaderName::Accept.pattern());
        self.accept = split_chars_str(v.as_str(), ';', ',');
    }
}

/// Stores one header line in `headers`, which hold the lines `lines` before it: in the
/// field of the header that it carries, or in `other` where it carries none.
fn parse_header(headers: &mut RequestHeaders, line: &str, Ghost(lines): Ghost<Seq<Seq<char>>>)
    requires
        old(headers).holds_lines(lines),
    ensures
        final(headers).holds_lines(lines.push(line@)),
{
    let kind = header_kind(line);
    let ghost all = lines.push(line@);
    assert(all.drop_last() =~= lines);
    match kind {
        None => {
            let ghost before = headers.other.deep_view();
            headers.other.push(line.to_owned());
            assert(headers.other.deep_view() =~= before.push(line@));
        },
        Some(k) => {
            proof {
                lemma_kind_matches(line@, 0, k);
            }
            match k {
                HeaderName::Accept => {
                    headers.set_accept(line);
                },
                HeaderName::AcceptEncoding => {
                    generate_field_string_vec(&mut headers.accept_encoding, line, k.pattern());
                },
                HeaderName::ContentLength => {
                    generate_field_u64(&mut headers.content_length, line, k.pattern());
                },
                HeaderName::ContentType => {
                    headers.set_content_type(line);
                },
                _ => {
                    headers.set_text(k, line);
                },
            }
            assert(unmatched(all) =~= unmatched(lines));
        },
    }
    assert forall|j: HeaderName| #[trigger] is_text_kind(j) implies headers.text_field(j)
        == text_value(all, j) by {
        assert(last_line_of(all, j) == if kind_of(line@) == Some(j) {
            Some(line@)
        } else {
            last_line_of(lines, j)
        });
    }
    assert(last_line_of(all, HeaderName::Accept) == if kind_of(line@) == Some(HeaderName::Accept) {
        Some(line@)
    } else {
        last_line_of(lines, HeaderName::Accept)
    });
    assert(last_line_of(all, HeaderName::AcceptEncoding) == if kind_of(line@) == Some(
        HeaderName::AcceptEncoding,
    ) {
        Some(line@)
    } else {
        last_line_of(lines, HeaderName::AcceptEncoding)
    });
    assert(last_line_of(all, HeaderName::ContentLength) == if kind_of(line@) == Some(
        HeaderName::ContentLength,
    ) {
        Some(line@)
    } else {
        last_line_of(lines, HeaderName::ContentLength)
    });
    assert(last_line_of(all, HeaderName::ContentType) == if kind_of(line@) == Some(
        HeaderName::ContentType,
    ) {
        Some(line@)
    } else {
        last_line_of(lines, HeaderName::ContentType)
    });
    assert(headers.accept.deep_view() == accept_value(all));
    assert(headers.accept_encoding.deep_view() == accept_encoding_value(all));
    assert(headers.content_length == content_length_value(all));
    assert(headers.content_type@ == media_type_of(text_value(all, HeaderName::ContentType)));
    assert(headers.content_bounds@ == boundary_of(text_value(all, HeaderName::ContentType)));
    assert(headers.other.deep_view() == unmatched(all));
}

impl RequestHeaders {
    /// Parses a header block: its lines are cut at CRLF and stored in order, so that
    /// the last line of a header decides its value.
    pub fn parse(raw: &str) -> (r: RequestHeaders)
        ensures
            r.parsed_from(raw@),
    {
        proof {
            reveal_strlit("\r\n");
        }
        let lines = split_str(raw, "\r\n");
        let mut headers = RequestHeaders::default();
        let mut i: usize = 0;
        while i < lines.len()
            invariant
                i <= lines.len(),
                headers.holds_lines(lines.deep_view().take(i as int)),
            decreases lines.len() - i,
        {
            let ghost done = lines.deep_view().take(i as int);
            parse_header(&mut headers, lines[i].as_str(), Ghost(done));
            assert(lines.deep_view().take(i + 1) =~= done.push(lines[i as int]@));
            i = i + 1;
        }
        assert(lines.deep_view().take(lines.len() as int) =~= lines.deep_view());
        headers
    }
}

} // verus!
