//! Request assembly: the request line, the header block and the body of one request,
//! read from the text that a connection delivered.
use vstd::prelude::*;
use vstd::utf8::{decode_utf8, encode_utf8, valid_utf8};

use crate::codec::{percent_decode_strict, percent_decoded, utf8_lossy, utf8_text};
use crate::form::{
    empty_form, multipart_fold, multipart_segments, url_encoded_fold, FormData, FormView,
};
use crate::headers::RequestHeaders;
use crate::method::{method_of, Method};
use crate::text::{
    chars_of, contains, contains_exec, remove_all, remove_all_str, same_text, split, split_once,
    split_once_str, split_str,
};

verus! {

/// Where the request came from.
pub struct Other {
    /// Address of the peer
    pub remote_ip: String,
    /// Port of the peer
    pub remote_port: String,
}

impl Default for Other {
    fn default() -> (r: Other)
        ensures
            r.remote_ip@ == Seq::<char>::empty(),
            r.remote_port@ == Seq::<char>::empty(),
    {
        Other { remote_ip: String::new(), remote_port: String::new() }
    }
}

/// A request, parsed and ready to use.
pub struct Request {
    /// The text of the request, NUL characters taken out
    pub raw: String,
    /// The request line has a method, a path that decodes as UTF-8 and a rest
    pub is_valid_request: bool,
    pub method: Method,
    /// The decoded and normalised path: it begins with `/` and holds no `.`, `..` or
    /// empty segment
    pub path: String,
    pub request_headers: RequestHeaders,
    pub form_data: FormData,
    pub other: Other,
}

/// What should be done with a request.
#[derive(Debug, PartialEq, Eq, Structural, Clone, Copy)]
pub enum Route {
    /// Serve the resource at the request's path
    Get,
    /// Answer that the method is not implemented
    Unsupported,
    /// Drop the request
    Invalid,
}

/// The text of a request with every NUL character taken out.
pub open spec fn without_nul(s: Seq<char>) -> Seq<char> {
    remove_all(s, "\0"@)
}

/// The method, path and rest of a request: the text cut at its first two spaces, where
/// it has two.
pub open spec fn request_tokens(s: Seq<char>) -> Option<(Seq<char>, Seq<char>, Seq<char>)> {
    match split_once(s, " "@) {
        Some((m, after)) => match split_once(after, " "@) {
            Some((p, rest)) => Some((m, p, rest)),
            None => None,
        },
        None => None,
    }
}

/// The header block of the rest of a request: up to its first `\r\n\r\n`.
pub open spec fn header_block(rest: Seq<char>) -> Seq<char> {
    match split_once(rest, "\r\n\r\n"@) {
        Some((h, b)) => h,
        None => rest,
    }
}

/// The body of the rest of a request: after its first `\r\n\r\n`.
pub open spec fn body_block(rest: Seq<char>) -> Seq<char> {
    match split_once(rest, "\r\n\r\n"@) {
        Some((h, b)) => b,
        None => Seq::empty(),
    }
}

/// The form data of a body: multipart where the headers gave a boundary token, else
/// URL-encoded where it holds `=`, else the body kept whole in `other` (where it is not
/// empty).
pub open spec fn body_form(body: Seq<char>, bounds: Seq<char>) -> FormView {
    if bounds.len() > 0 {
        multipart_fold(empty_form(), multipart_segments(body, bounds))
    } else if contains(body, "="@) {
        url_encoded_fold(empty_form(), split(body, "&"@))
    } else if body.len() > 0 {
        FormView { other: seq![body], ..empty_form() }
    } else {
        empty_form()
    }
}

/// The segments of a path after one more `/`-separated segment: `.` and empty segments
/// are dropped, `..` drops the segment before it (none above the root).
pub open spec fn resolve_step(stack: Seq<Seq<char>>, seg: Seq<char>) -> Seq<Seq<char>> {
    if seg.len() == 0 || seg == "."@ {
        stack
    } else if seg == ".."@ {
        if stack.len() > 0 {
            stack.drop_last()
        } else {
            stack
        }
    } else {
        stack.push(seg)
    }
}

/// The segments of a path after the segments `segs`, in order.
pub open spec fn resolve_fold(segs: Seq<Seq<char>>) -> Seq<Seq<char>>
    decreases segs.len(),
{
    if segs.len() == 0 {
        Seq::empty()
    } else {
        resolve_step(resolve_fold(segs.drop_last()), segs.last())
    }
}

/// Each segment with a `/` before it.
pub open spec fn slash_joined(stack: Seq<Seq<char>>) -> Seq<char>
    decreases stack.len(),
{
    if stack.len() == 0 {
        Seq::empty()
    } else {
        slash_joined(stack.drop_last()) + "/"@ + stack.last()
    }
}

/// The normal form of a decoded path: its segments resolved, written from the root.
pub open spec fn normal_path(p: Seq<char>) -> Seq<char> {
    let stack = resolve_fold(split(p, "/"@));
    if stack.len() == 0 {
        "/"@
    } else {
        slash_joined(stack)
    }
}

/// The decoded path token `p`, where its percent-decoded bytes are UTF-8.
pub open spec fn decoded_path(p: Seq<char>) -> Option<Seq<char>> {
    let bytes = percent_decoded(encode_utf8(p));
    if valid_utf8(bytes) {
        Some(normal_path(decode_utf8(bytes)))
    } else {
        None
    }
}

/// The method, decoded path and rest of a request whose request line has three tokens
/// and whose path decodes as UTF-8.
pub open spec fn request_line(text: Seq<char>) -> Option<(Method, Seq<char>, Seq<char>)> {
    match request_tokens(text) {
        Some((m, p, rest)) => match decoded_path(p) {
            Some(d) => Some((method_of(m), d, rest)),
            None => None,
        },
        None => None,
    }
}

impl Request {
    /// This request is what the text `text` (NUL characters already taken out) gives:
    /// where the request line is malformed or its path does not decode, every field but
    /// the text is left at its default.
    pub open spec fn parsed_from(&self, text: Seq<char>) -> bool {
        &&& self.raw@ == text
        &&& match request_line(text) {
            None => {
                &&& !self.is_valid_request
                &&& self.method == Method::Unsupported
                &&& self.path@ == Seq::<char>::empty()
                &&& self.request_headers.holds_lines(Seq::empty())
                &&& self.form_data@ == empty_form()
            },
            Some((m, d, rest)) => {
                &&& self.is_valid_request
                &&& self.method == m
                &&& self.path@ == d
                &&& self.request_headers.parsed_from(header_block(rest))
                &&& self.form_data@ == body_form(
                    body_block(rest),
                    self.request_headers.content_bounds@,
                )
            },
        }
    }
}

/// The path of a valid request is normalised: it begins with `/`, and it is written
/// from the root with segments none of which is empty, `.` or `..`.
pub proof fn lemma_valid_request_path(r: Request, text: Seq<char>)
    requires
        r.parsed_from(text),
        r.is_valid_request,
    ensures
        r.path@.len() > 0,
        r.path@[0] == '/',
        exists|stack: Seq<Seq<char>>|
            {
                &&& forall|i: int|
                    0 <= i < stack.len() ==> {
                        let s = #[trigger] stack[i];
                        s.len() > 0 && s != "."@ && s != ".."@
                    }
                &&& r.path@ == (if stack.len() == 0 {
                    "/"@
                } else {
                    slash_joined(stack)
                })
            },
{
    let (mt, p, rt) = request_tokens(text)->0;
    let q = decode_utf8(percent_decoded(encode_utf8(p)));
    assert(r.path@ == normal_path(q));
    lemma_normal_path_rooted(q);
    let stack = resolve_fold(split(q, "/"@));
    lemma_resolved_segments_are_names(split(q, "/"@));
    assert(forall|i: int|
        0 <= i < stack.len() ==> {
            let s = #[trigger] stack[i];
            s.len() > 0 && s != "."@ && s != ".."@
        });
}

/// Every segment of a resolved path is a name: none is empty, `.` or `..`.
pub proof fn lemma_resolved_segments_are_names(segs: Seq<Seq<char>>)
    ensures
        forall|i: int|
            0 <= i < resolve_fold(segs).len() ==> {
                let s = #[trigger] resolve_fold(segs)[i];
                s.len() > 0 && s != "."@ && s != ".."@
            },
    decreases segs.len(),
{
    if segs.len() > 0 {
        lemma_resolved_segments_are_names(segs.drop_last());
        let prev = resolve_fold(segs.drop_last());
        let cur = resolve_fold(segs);
        assert forall|i: int| 0 <= i < cur.len() implies {
            let s = #[trigger] cur[i];
            s.len() > 0 && s != "."@ && s != ".."@
        } by {
            if i < prev.len() && cur.len() <= prev.len() + 1 && (cur.len() == prev.len() + 1
                ==> cur == prev.push(segs.last())) && (cur.len() <= prev.len() ==> cur
                == prev.subrange(0, cur.len() as int)) {
                assert(cur[i] == prev[i]);
            }
        }
    }
}

/// Segments written from the root begin with `/`.
proof fn lemma_slash_joined_rooted(stack: Seq<Seq<char>>)
    requires
        stack.len() > 0,
    ensures
        slash_joined(stack).len() > 0,
        slash_joined(stack)[0] == '/',
    decreases stack.len(),
{
    reveal_strlit("/");
    let prev = stack.drop_last();
    if prev.len() > 0 {
        lemma_slash_joined_rooted(prev);
    }
    assert(slash_joined(stack) == slash_joined(prev) + "/"@ + stack.last());
}

/// A normalised path begins at the root: its first character is `/`.
pub proof fn lemma_normal_path_rooted(p: Seq<char>)
    ensures
        normal_path(p).len() > 0,
        normal_path(p)[0] == '/',
{
    reveal_strlit("/");
    let stack = resolve_fold(split(p, "/"@));
    if stack.len() > 0 {
        lemma_slash_joined_rooted(stack);
    }
}

/// Normalises a decoded path: resolves its `/`-separated segments and writes them
/// from the root.
pub fn normalize_path(p: &str) -> (r: String)
    ensures
        r@ == normal_path(p@),
{
    proof {
        reveal_strlit("/");
        reveal_strlit(".");
        reveal_strlit("..");
    }
    let segs = split_str(p, "/");
    let mut stack: Vec<String> = Vec::new();
    let mut i: usize = 0;
    while i < segs.len()
        invariant
            i <= segs.len(),
            stack.deep_view() == resolve_fold(segs.deep_view().take(i as int)),
        decreases segs.len() - i,
    {
        let ghost d = segs.deep_view().take(i + 1);
        assert(d.drop_last() =~= segs.deep_view().take(i as int));
        let ghost before = stack.deep_view();
        let seg = segs[i].as_str();
        if seg.unicode_len() == 0 || same_text(seg, ".") {
        } else if same_text(seg, "..") {
            if stack.len() > 0 {
                stack.pop();
                assert(stack.deep_view() =~= before.drop_last());
            }
        } else {
            stack.push(seg.to_owned());
            assert(stack.deep_view() =~= before.push(seg@));
        }
        i = i + 1;
    }
    assert(segs.deep_view().take(segs.len() as int) =~= segs.deep_view());
    if stack.len() == 0 {
        return "/".to_owned();
    }
    let mut r = String::new();
    let mut j: usize = 0;
    while j < stack.len()
        invariant
            j <= stack.len(),
            r@ == slash_joined(stack.deep_view().take(j as int)),
        decreases stack.len() - j,
    {
        let ghost d = stack.deep_view().take(j + 1);
        assert(d.drop_last() =~= stack.deep_view().take(j as int));
        r.append("/");
        r.append(stack[j].as_str());
        j = j + 1;
    }
    assert(stack.deep_view().take(stack.len() as int) =~= stack.deep_view());
    r
}

/// Decodes the path token of a request line; `None` where its percent-decoded bytes
/// are not UTF-8.
pub fn decode_path(p: &str) -> (r: Option<String>)
    ensures
        r is Some <==> decoded_path(p@) is Some,
        r is Some ==> r->0@ == decoded_path(p@)->0,
{
    match percent_decode_strict(p) {
        Some(d) => Some(normalize_path(d.as_str())),
        None => None,
    }
}

/// The form data of a request body, given the boundary token that its headers gave.
pub fn parse_body(body: &str, bounds: &String) -> (r: FormData)
    ensures
        r@ == body_form(body@, bounds@),
{
    proof {
        reveal_strlit("=");
    }
    let mut form = FormData::default();
    if bounds.as_str().unicode_len() > 0 {
        form.add_multipart(body.to_owned(), bounds);
    } else {
        let bc = chars_of(body);
        let eq = chars_of("=");
        if contains_exec(&bc, &eq) {
            form.add_url_encoded(body.to_owned());
        } else if body.unicode_len() > 0 {
            let ghost before = form.other.deep_view();
            form.other.push(body.to_owned());
            assert(form.other.deep_view() =~= before.push(body@));
        }
    }
    form
}

impl Request {
    /// Parses the text of a request: NUL characters are taken out, then the request
    /// line is cut at its first two spaces into method, path and rest; the rest is cut
    /// at its first `\r\n\r\n` into the header block and the body.
    pub fn parse_text(raw: String, other: Other) -> (r: Request)
        ensures
            r.parsed_from(without_nul(raw@)),
            r.other == other,
    {
        proof {
            reveal_strlit("\0");
            reveal_strlit(" ");
            reveal_strlit("\r\n\r\n");
        }
        let text = remove_all_str(raw.as_str(), "\0");
        match split_once_str(text.as_str(), " ") {
            Some((m, after)) => match split_once_str(after.as_str(), " ") {
                Some((p, rest)) => match decode_path(p.as_str()) {
                    Some(path) => {
                        let method = Method::from_str(&m);
                        let (head, body) = match split_once_str(rest.as_str(), "\r\n\r\n") {
                            Some((h, b)) => (h, b),
                            None => (rest.clone(), String::new()),
                        };
                        let request_headers = RequestHeaders::parse(head.as_str());
                        let form_data = parse_body(
                            body.as_str(),
                            &request_headers.content_bounds,
                        );
                        return Request {
                            raw: text,
                            is_valid_request: true,
                            method,
                            path,
                            request_headers,
                            form_data,
                            other,
                        };
                    },
                    None => {},
                },
                None => {},
            },
            None => {},
        }
        Request {
            raw: text,
            is_valid_request: false,
            method: Method::Unsupported,
            path: String::new(),
            request_headers: RequestHeaders::default(),
            form_data: FormData::default(),
            other,
        }
    }

    /// Parses a request from the bytes that a connection delivered: they are read as
    /// UTF-8 with invalid sequences replaced, then parsed as `parse_text` does.
    pub fn parse(buffer: &[u8], other: Other) -> (r: Request)
        ensures
            r.parsed_from(without_nul(utf8_text(buffer@))),
            r.other == other,
    {
        let text = utf8_lossy(buffer);
        assert(text@ == utf8_text(buffer@));
        Request::parse_text(text, other)
    }

    /// The path of the requested resource under `root_folder`.
    pub fn get_local_path(&self, root_folder: &String) -> (r: String)
        ensures
            r@ == root_folder@ + self.path@,
    {
        let mut r = root_folder.clone();
        r.append(self.path.as_str());
        r
    }

    /// The text of the request, NUL characters taken out.
    pub fn get_raw(&self) -> (r: String)
        ensures
            r@ == self.raw@,
    {
        self.raw.clone()
    }

    /// What to do with this request: serve a valid `GET`, refuse any other method of a
    /// valid request, drop an invalid one.
    pub fn route(&self) -> (r: Route)
        ensures
            r == (if !self.is_valid_request {
                Route::Invalid
            } else if self.method == Method::GET {
                Route::Get
            } else {
                Route::Unsupported
            }),
    {
        if !self.is_valid_request {
            Route::Invalid
        } else if self.method == Method::GET {
            Route::Get
        } else {
            Route::Unsupported
        }
    }
}

impl Default for Request {
    fn default() -> (r: Request)
        ensures
            r.parsed_from(Seq::empty()),
    {
        let r = Request {
            raw: String::new(),
            is_valid_request: false,
            method: Method::Unsupported,
            path: String::new(),
            request_headers: RequestHeaders::default(),
            form_data: FormData::default(),
            other: Other::default(),
        };
        assert(request_tokens(Seq::empty()) is None);
        assert(request_line(Seq::empty()) is None);
        r
    }
}

} // verus!
