//! Decisions of the file-serving handler: links of a directory listing, the index file
//! of a directory, and the headers of a served file.
use vstd::prelude::*;
use vstd::string::StringSliceAdditionalSpecFns;
use vstd::utf8::encode_utf8;

use crate::response::headers::ResponseHeaders;
use crate::response::status::HttpStatus;
use crate::text::{remove_all, remove_all_str, replace_all, replace_all_str, same_text, trim_start, trim_start_str};

verus! {

/// A byte that a link in a listing must write as `%XX`: controls, non-ASCII bytes, and
/// space, `"`, `#`, `<`, `>`, `` ` ``, `?`, `{`, `}`.
pub open spec fn must_encode(b: u8) -> bool {
    b < 32 || b > 126 || b == 32 || b == 34 || b == 35 || b == 60 || b == 62 || b == 96 || b
        == 63 || b == 123 || b == 125
}

/// The upper-case hexadecimal digit that writes `d`, for `d` below sixteen.
pub open spec fn hex_digit(d: u8) -> char {
    if d < 10 {
        (d + 48) as char
    } else {
        (d + 55) as char
    }
}

/// The bytes `b` with each byte that must be encoded written as `%` and two upper-case
/// hexadecimal digits, and every other byte as the character it is.
pub open spec fn percent_encoded(b: Seq<u8>) -> Seq<char>
    decreases b.len(),
{
    if b.len() == 0 {
        Seq::empty()
    } else {
        percent_encoded(b.drop_last()) + (if must_encode(b.last()) {
            seq!['%', hex_digit(b.last() / 16), hex_digit(b.last() % 16)]
        } else {
            seq![b.last() as char]
        })
    }
}

/// The media type that the extension of `path` suggests, if it suggests one.
pub uninterp spec fn guessed_media_type(path: Seq<char>) -> Option<Seq<char>>;

/// Relies on `percent_encoding::utf8_percent_encode` with `DEFAULT_ENCODE_SET`: each
/// byte of the text that is in the set (controls, non-ASCII bytes, and
/// `` "#<>`?{}`` and space) becomes `%` and two upper-case hexadecimal digits.
#[verifier::external_body]
fn percent_encode_text(s: &str) -> (r: String)
    ensures
        r@ == percent_encoded(s.spec_bytes()),
{
    percent_encoding::utf8_percent_encode(s, percent_encoding::DEFAULT_ENCODE_SET).to_string()
}

/// Relies on `mime_guess::from_path(..).first_raw()`: the first media type that the
/// extension of the path is known by, from the crate's static table.
#[verifier::external_body]
fn media_type_of_path(path: &str) -> (r: Option<String>)
    ensures
        r is Some <==> guessed_media_type(path@) is Some,
        r is Some ==> r->0@ == guessed_media_type(path@)->0,
{
    mime_guess::from_path(path).first_raw().map(|m| m.to_owned())
}

/// The link to an entry of a directory listing: `%` written as `%25`, then the text
/// percent-encoded; a directory's link ends in a backslash.
pub fn percent_encode(link: &String, is_dir: bool) -> (r: String)
    ensures
        r@ == percent_encoded(encode_utf8(replace_all(link@, "%"@, "%25"@))) + (if is_dir {
            "\\"@
        } else {
            Seq::empty()
        }),
{
    proof {
        reveal_strlit("%");
    }
    let escaped = replace_all_str(link.as_str(), "%", "%25");
    let mut encoded = percent_encode_text(escaped.as_str());
    if is_dir {
        encoded.append("\\");
    } else {
        assert(encoded@ + Seq::<char>::empty() =~= encoded@);
    }
    encoded
}

/// The path of a directory entry as the listing shows it: `full_path` without the
/// directory's own path, then without leading copies of the root folder.
pub open spec fn web_path(full_path: Seq<char>, current_dir: Seq<char>, root: Seq<char>) -> Seq<
    char,
> {
    let rest = if current_dir.len() > 0 {
        remove_all(full_path, current_dir)
    } else {
        full_path
    };
    trim_start(rest, root)
}

/// The path of a directory entry as the listing shows it.
pub fn get_web_path(full_path: String, current_dir: &String, root_folder: &String) -> (r: String)
    ensures
        r@ == web_path(full_path@, current_dir@, root_folder@),
{
    let rest = if current_dir.as_str().unicode_len() > 0 {
        remove_all_str(full_path.as_str(), current_dir.as_str())
    } else {
        full_path
    };
    trim_start_str(rest.as_str(), root_folder.as_str())
}

/// What to answer for a directory.
#[derive(Debug, PartialEq, Eq, Structural, Clone, Copy)]
pub enum DirectoryAction {
    /// Serve the entry at this position, an index file
    ServeIndex(usize),
    /// List the directory
    List,
    /// Refuse to list it
    Forbid,
}

/// The first position, from `i` on, of an entry of `files` that is named in `index`.
pub open spec fn first_index_from(files: Seq<Seq<char>>, index: Seq<Seq<char>>, i: int) -> Option<
    int,
>
    decreases files.len() - i,
{
    if i < 0 || i >= files.len() {
        None
    } else if index.contains(files[i]) {
        Some(i)
    } else {
        first_index_from(files, index, i + 1)
    }
}

/// Whether `name` is one of `names`.
fn is_listed(name: &String, names: &Vec<String>) -> (r: bool)
    ensures
        r == names.deep_view().contains(name@),
{
    let mut j: usize = 0;
    while j < names.len()
        invariant
            j <= names.len(),
            forall|k: int| 0 <= k < j ==> names.deep_view()[k] != name@,
        decreases names.len() - j,
    {
        if same_text(names[j].as_str(), name.as_str()) {
            assert(names.deep_view()[j as int] == name@);
            return true;
        }
        j = j + 1;
    }
    false
}

/// What to answer for a directory whose entries are `files`: its first entry that is
/// an index file, else a listing where listings are allowed, else a refusal.
pub fn directory_action(files: &Vec<String>, index: &Vec<String>, list_directories: bool) -> (r:
    DirectoryAction)
    ensures
        match first_index_from(files.deep_view(), index.deep_view(), 0) {
            Some(i) => r == DirectoryAction::ServeIndex(i as usize),
            None => r == (if list_directories {
                DirectoryAction::List
            } else {
                DirectoryAction::Forbid
            }),
        },
{
    let mut i: usize = 0;
    while i < files.len()
        invariant
            i <= files.len(),
            first_index_from(files.deep_view(), index.deep_view(), 0) == first_index_from(
                files.deep_view(),
                index.deep_view(),
                i as int,
            ),
        decreases files.len() - i,
    {
        if is_listed(&files[i], index) {
            return DirectoryAction::ServeIndex(i);
        }
        i = i + 1;
    }
    if list_directories {
        DirectoryAction::List
    } else {
        DirectoryAction::Forbid
    }
}

/// The headers of a served file of `len` bytes and media type `media_type`: status
/// `OK`, any site allowed, its length, and its media type where one is known.
pub fn file_headers_for(media_type: Option<String>, len: u64) -> (r: ResponseHeaders)
    ensures
        r.status == HttpStatus::OK,
        r.access_control_allow_origin@ == "*"@,
        r.content_length == len,
        r.content_type@ == match media_type {
            Some(m) => m@,
            None => Seq::<char>::empty(),
        },
{
    let mut headers = ResponseHeaders::new(HttpStatus::OK);
    headers.set_cross_origin_allow_all();
    headers.set_content_length(len);
    match media_type {
        Some(m) => headers.set_content_type(m),
        None => {},
    }
    headers
}

/// The headers of the served file at `path`, of `len` bytes.
pub fn file_headers(path: &str, len: u64) -> (r: ResponseHeaders)
    ensures
        r.status == HttpStatus::OK,
        r.access_control_allow_origin@ == "*"@,
        r.content_length == len,
        r.content_type@ == match guessed_media_type(path@) {
            Some(m) => m,
            None => Seq::<char>::empty(),
        },
{
    let media_type = media_type_of_path(path);
    file_headers_for(media_type, len)
}

} // verus!
