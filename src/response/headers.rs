//! Response headers: set field by field, then written as the head of a response.
use vstd::prelude::*;

use crate::response::status::{status_text, HttpStatus};
use crate::text::{decimal_text, write_decimal};

verus! {

/// The encodings that a response body may be sent in.
#[derive(Debug, PartialEq, Eq, Structural, Clone, Copy)]
pub enum TransferEncoding {
    /// ""
    Undefined,
    /// "!"
    UnderConstruction,
    /// "?"
    Dynamic,
    /// "G"
    GatewayToMultipleParties,
    /// "N"
    NotTracking,
    /// "T"
    Tracking,
    /// "C"
    TrackingWithConsent,
    /// "P"
    TrackingOnlyIfConsented,
    /// "D"
    DisregardingDnt,
    /// "U"
    Updated,
}

impl Default for TransferEncoding {
    fn default() -> (r: TransferEncoding)
        ensures
            r == TransferEncoding::Undefined,
    {
        TransferEncoding::Undefined
    }
}

/// The headers of a response.
pub struct ResponseHeaders {
    /// The status of the response
    pub status: HttpStatus,
    /// Which web sites may take part in cross-origin resource sharing (`*` for any)
    pub access_control_allow_origin: String,
    /// Patch document formats that this server supports
    pub accept_patch: String,
    /// Partial content range types that this server supports
    pub accept_ranges: String,
    /// Seconds the object has been in a proxy cache
    pub age: String,
    /// Valid methods for the resource
    pub allow: String,
    /// Whether caching mechanisms may cache this object
    pub cache_control: String,
    /// Control options for the current connection
    pub connection: String,
    /// Suggests a file name, or a download dialogue, for the content
    pub content_disposition: String,
    /// The encoding used on the data
    pub content_encoding: String,
    /// The languages of the intended audience
    pub content_language: String,
    /// The length of the response body in octets
    pub content_length: u64,
    /// An alternate location for the returned data
    pub content_location: String,
    /// A Base64-encoded binary MD5 sum of the content
    pub content_md5: String,
    /// Where in a full body this partial message belongs
    pub content_range: String,
    /// The media type of this content
    pub content_type: String,
    /// The date and time that the message was sent
    pub date: String,
    /// The delta-encoding entity tag of the response
    pub delta_base: String,
    /// An identifier for a specific version of a resource
    pub e_tag: String,
    /// The date after which the response is stale
    pub expires: String,
    /// Instance-manipulations applied to the response
    pub instance_manipulations: String,
    /// The last modified date of the object
    pub last_modified: String,
    /// A typed relationship with another resource
    pub link: String,
    /// Where to go next, for a redirection or a new resource
    pub location: String,
    /// A P3P policy
    pub p3p: String,
    /// Implementation-specific fields
    pub pragma: String,
    /// Request for authentication to access the proxy
    pub proxy_authenticate: String,
    /// Hash of the site's authentic TLS certificate
    pub public_key_pins: String,
    /// When to try again after a temporary unavailability
    pub retry_after: String,
    /// A name for the server
    pub server: String,
    /// An HTTP cookie
    pub set_cookie: String,
    /// The HSTS policy
    pub strict_transport_security: String,
    /// Header fields present in the trailer of a chunked message
    pub trailer: String,
    /// The form of encoding used to transfer the entity
    pub transfer_encoding: TransferEncoding,
    /// Tracking status, in answer to a DNT request
    pub tracking_status: String,
    /// Asks the client to upgrade to another protocol
    pub upgrade: String,
    /// How to match future request headers for caching
    pub vary: String,
    /// Proxies through which the response was sent
    pub via: String,
    /// A general warning about the entity body
    pub warning: String,
    /// The authentication scheme for the requested entity
    pub www_authenticate: String,
    /// Clickjacking protection
    pub x_frame_options: String,
}

/// The head of a response: its status line, the headers that are set, and a blank line.
pub open spec fn head_text(h: ResponseHeaders) -> Seq<char> {
    status_text(h.status) + (if h.access_control_allow_origin@.len() > 0 {
        "Access-Control-Allow-Origin: "@ + h.access_control_allow_origin@ + "\r\n"@
    } else {
        Seq::empty()
    }) + (if h.content_length != 0 {
        "Content-Length: "@ + decimal_text(h.content_length as nat) + "\r\n"@
    } else {
        Seq::empty()
    }) + "\r\n"@
}

impl ResponseHeaders {
    /// No header is set.
    pub open spec fn is_blank(&self) -> bool {
        &&& self.access_control_allow_origin@ == Seq::<char>::empty()
        &&& self.accept_patch@ == Seq::<char>::empty()
        &&& self.accept_ranges@ == Seq::<char>::empty()
        &&& self.age@ == Seq::<char>::empty()
        &&& self.allow@ == Seq::<char>::empty()
        &&& self.cache_control@ == Seq::<char>::empty()
        &&& self.connection@ == Seq::<char>::empty()
        &&& self.content_disposition@ == Seq::<char>::empty()
        &&& self.content_encoding@ == Seq::<char>::empty()
        &&& self.content_language@ == Seq::<char>::empty()
        &&& self.content_location@ == Seq::<char>::empty()
        &&& self.content_md5@ == Seq::<char>::empty()
        &&& self.content_range@ == Seq::<char>::empty()
        &&& self.content_type@ == Seq::<char>::empty()
        &&& self.date@ == Seq::<char>::empty()
        &&& self.delta_base@ == Seq::<char>::empty()
        &&& self.e_tag@ == Seq::<char>::empty()
        &&& self.expires@ == Seq::<char>::empty()
        &&& self.instance_manipulations@ == Seq::<char>::empty()
        &&& self.last_modified@ == Seq::<char>::empty()
        &&& self.link@ == Seq::<char>::empty()
        &&& self.location@ == Seq::<char>::empty()
        &&& self.p3p@ == Seq::<char>::empty()
        &&& self.pragma@ == Seq::<char>::empty()
        &&& self.proxy_authenticate@ == Seq::<char>::empty()
        &&& self.public_key_pins@ == Seq::<char>::empty()
        &&& self.retry_after@ == Seq::<char>::empty()
        &&& self.server@ == Seq::<char>::empty()
        &&& self.set_cookie@ == Seq::<char>::empty()
        &&& self.strict_transport_security@ == Seq::<char>::empty()
        &&& self.trailer@ == Seq::<char>::empty()
        &&& self.tracking_status@ == Seq::<char>::empty()
        &&& self.upgrade@ == Seq::<char>::empty()
        &&& self.vary@ == Seq::<char>::empty()
        &&& self.via@ == Seq::<char>::empty()
        &&& self.warning@ == Seq::<char>::empty()
        &&& self.www_authenticate@ == Seq::<char>::empty()
        &&& self.x_frame_options@ == Seq::<char>::empty()
        &&& self.content_length == 0
        &&& self.transfer_encoding == TransferEncoding::Undefined
    }

    /// Headers for a response with status `status`, and no header set.
    pub fn new(status: HttpStatus) -> (r: ResponseHeaders)
        ensures
            r.status == status,
            r.is_blank(),
    {
        ResponseHeaders {
            status,
            access_control_allow_origin: String::new(),
            accept_patch: String::new(),
            accept_ranges: String::new(),
            age: String::new(),
            allow: String::new(),
            cache_control: String::new(),
            connection: String::new(),
            content_disposition: String::new(),
            content_encoding: String::new(),
            content_language: String::new(),
            content_length: 0,
            content_location: String::new(),
            content_md5: String::new(),
            content_range: String::new(),
            content_type: String::new(),
            date: String::new(),
            delta_base: String::new(),
            e_tag: String::new(),
            expires: String::new(),
            instance_manipulations: String::new(),
            last_modified: String::new(),
            link: String::new(),
            location: String::new(),
            p3p: String::new(),
            pragma: String::new(),
            proxy_authenticate: String::new(),
            public_key_pins: String::new(),
            retry_after: String::new(),
            server: String::new(),
            set_cookie: String::new(),
            strict_transport_security: String::new(),
            trailer: String::new(),
            transfer_encoding: TransferEncoding::Undefined,
            tracking_status: String::new(),
            upgrade: String::new(),
            vary: String::new(),
            via: String::new(),
            warning: String::new(),
            www_authenticate: String::new(),
            x_frame_options: String::new(),
        }
    }

    /// Lets any site take part in cross-origin resource sharing.
    pub fn set_cross_origin_allow_all(&mut self)
        ensures
            final(self).access_control_allow_origin@ == "*"@,
            *final(self) == (ResponseHeaders {
                access_control_allow_origin: final(self).access_control_allow_origin,
                ..*old(self)
            }),
    {
        self.access_control_allow_origin = "*".to_owned();
    }

    /// Lets the site `host` take part in cross-origin resource sharing.
    pub fn set_cross_origin_allow_host(&mut self, host: String)
        ensures
            *final(self) == (ResponseHeaders { access_control_allow_origin: host, ..*old(self) }),
    {
        self.access_control_allow_origin = host;
    }

    /// Sets the length of the response body.
    pub fn set_content_length(&mut self, content_length: u64)
        ensures
            *final(self) == (ResponseHeaders { content_length, ..*old(self) }),
    {
        self.content_length = content_length;
    }

    /// Sets the media type of the response body.
    pub fn set_content_type(&mut self, content_type: String)
        ensures
            *final(self) == (ResponseHeaders { content_type, ..*old(self) }),
    {
        self.content_type = content_type;
    }

    /// Writes the head of the response: the status line, `Access-Control-Allow-Origin`
    /// where it is set, `Content-Length` where it is not zero, and a blank line.
    pub fn get_headers(&mut self) -> (r: String)
        ensures
            r@ == head_text(*old(self)),
            *final(self) == *old(self),
    {
        let mut out = self.status.status_line().to_owned();
        if self.access_control_allow_origin.as_str().unicode_len() > 0 {
            out.append("Access-Control-Allow-Origin: ");
            out.append(self.access_control_allow_origin.as_str());
            out.append("\r\n");
        }
        if self.content_length != 0 {
            out.append("Content-Length: ");
            write_decimal(self.content_length, &mut out);
            out.append("\r\n");
        }
        out.append("\r\n");
        out
    }
}

impl Default for ResponseHeaders {
    fn default() -> (r: ResponseHeaders)
        ensures
            r.status == HttpStatus::Undefined,
            r.is_blank(),
    {
        ResponseHeaders::new(HttpStatus::Undefined)
    }
}

} // verus!
