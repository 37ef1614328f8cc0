//! Request bodies: URL-encoded forms, and multipart forms cut at their boundary token.
use vstd::prelude::*;
use vstd::utf8::encode_utf8;

use crate::codec::{percent_decode_lossy, percent_decoded, utf8_text};
use crate::fields::generate_field_vec_u8;
use crate::text::{
    contains, contains_exec, chars_of, piece, remove_all, remove_all_str, same_text, split,
    split_once, split_once_str, split_str, starts_with, starts_with_exec, trim_end, trim_end_str,
};

verus! {

/// A named value of a form.
pub struct FormField {
    /// Field name
    pub name: String,
    /// Field value
    pub value: String,
}

/// A file uploaded through a multipart form.
pub struct MultipartFile {
    /// Field name
    pub name: String,
    /// Name of the uploaded file
    pub filename: String,
    /// Media type of the uploaded file
    pub content_type: String,
    /// File contents
    pub file: Vec<u8>,
}

/// One part of a multipart form, before it is sorted into fields and files.
pub struct MultipartFormElement {
    /// Field name
    pub name: String,
    /// Text content, for a part that is no file
    pub content: String,
    /// The part carries a `Content-Type`, and so is a file
    pub is_file: bool,
    /// Name of the uploaded file
    pub filename: String,
    /// Media type of the uploaded file
    pub content_type: String,
    /// File contents, for a part that is a file
    pub file: Vec<u8>,
    /// Parameters of the part that were not understood
    pub other: Vec<String>,
}

/// All the data of the forms of a request.
pub struct FormData {
    /// Form fields, from multipart and URL-encoded forms
    pub form_field: Vec<FormField>,
    /// Files uploaded through multipart forms
    pub multipart_file: Vec<MultipartFile>,
    /// Body segments that could not be understood
    pub other: Vec<String>,
}

/// What a multipart file holds.
pub struct FileView {
    pub name: Seq<char>,
    pub filename: Seq<char>,
    pub content_type: Seq<char>,
    pub file: Seq<u8>,
}

/// What a multipart part holds.
pub struct ElementView {
    pub name: Seq<char>,
    pub content: Seq<char>,
    pub is_file: bool,
    pub filename: Seq<char>,
    pub content_type: Seq<char>,
    pub file: Seq<u8>,
    pub other: Seq<Seq<char>>,
}

/// What form data holds: fields as name and value, files, and segments not understood.
pub struct FormView {
    pub fields: Seq<(Seq<char>, Seq<char>)>,
    pub files: Seq<FileView>,
    pub other: Seq<Seq<char>>,
}

/// What the header lines of a multipart part have said so far.
pub struct InfoView {
    pub name: Seq<char>,
    pub filename: Seq<char>,
    pub content_type: Seq<char>,
    pub is_file: bool,
    pub other: Seq<Seq<char>>,
}

impl View for FormField {
    type V = (Seq<char>, Seq<char>);

    open spec fn view(&self) -> (Seq<char>, Seq<char>) {
        (self.name@, self.value@)
    }
}

impl View for MultipartFile {
    type V = FileView;

    open spec fn view(&self) -> FileView {
        FileView {
            name: self.name@,
            filename: self.filename@,
            content_type: self.content_type@,
            file: self.file@,
        }
    }
}

impl View for MultipartFormElement {
    type V = ElementView;

    open spec fn view(&self) -> ElementView {
        ElementView {
            name: self.name@,
            content: self.content@,
            is_file: self.is_file,
            filename: self.filename@,
            content_type: self.content_type@,
            file: self.file@,
            other: self.other.deep_view(),
        }
    }
}

impl MultipartFormElement {
    /// What the header lines of this part have said.
    pub open spec fn info(&self) -> InfoView {
        InfoView {
            name: self.name@,
            filename: self.filename@,
            content_type: self.content_type@,
            is_file: self.is_file,
            other: self.other.deep_view(),
        }
    }
}

/// The views of a list of fields.
pub open spec fn fields_view(v: Seq<FormField>) -> Seq<(Seq<char>, Seq<char>)> {
    v.map_values(|f: FormField| f@)
}

/// The views of a list of files.
pub open spec fn files_view(v: Seq<MultipartFile>) -> Seq<FileView> {
    v.map_values(|f: MultipartFile| f@)
}

impl View for FormData {
    type V = FormView;

    open spec fn view(&self) -> FormView {
        FormView {
            fields: fields_view(self.form_field@),
            files: files_view(self.multipart_file@),
            other: self.other.deep_view(),
        }
    }
}

/// Form data that holds nothing.
pub open spec fn empty_form() -> FormView {
    FormView { fields: Seq::empty(), files: Seq::empty(), other: Seq::empty() }
}

/// A URL-encoded name or value: percent-decoded, then read as UTF-8, invalid sequences
/// replaced.
pub open spec fn decode_component(s: Seq<char>) -> Seq<char> {
    utf8_text(percent_decoded(encode_utf8(s)))
}

/// `st` after one `&`-separated segment of a URL-encoded body: a field, cut at its first
/// `=`, or, without `=`, a segment kept in `other`.
pub open spec fn url_encoded_step(st: FormView, seg: Seq<char>) -> FormView {
    match split_once(seg, "="@) {
        Some((n, v)) => FormView {
            fields: st.fields.push((decode_component(n), decode_component(v))),
            files: st.files,
            other: st.other,
        },
        None => FormView { fields: st.fields, files: st.files, other: st.other.push(seg) },
    }
}

/// `st` after the segments `segs`, in order.
pub open spec fn url_encoded_fold(st: FormView, segs: Seq<Seq<char>>) -> FormView
    decreases segs.len(),
{
    if segs.len() == 0 {
        st
    } else {
        url_encoded_step(url_encoded_fold(st, segs.drop_last()), segs.last())
    }
}

/// The line that begins the header section of a form part.
pub open spec fn disposition() -> Seq<char> {
    "Content-Disposition: form-data; "@
}

/// A segment left between two boundaries that ends the body or holds nothing.
pub open spec fn is_end_marker(t: Seq<char>) -> bool {
    t.len() == 0 || t == "\r\n"@ || t == "--"@ || t == "--\r\n"@
}

/// `st` after one `"; `-separated parameter of a part's disposition line.
pub open spec fn parameter_step(st: InfoView, p: Seq<char>) -> InfoView {
    if starts_with(p, "name=\""@) {
        InfoView { name: remove_all(p.subrange(6, p.len() as int), "\""@), ..st }
    } else if starts_with(p, "filename=\""@) {
        InfoView { filename: remove_all(p.subrange(10, p.len() as int), "\""@), ..st }
    } else {
        InfoView { other: st.other.push(p), ..st }
    }
}

/// `st` after the parameters `ps`, in order.
pub open spec fn parameters_fold(st: InfoView, ps: Seq<Seq<char>>) -> InfoView
    decreases ps.len(),
{
    if ps.len() == 0 {
        st
    } else {
        parameter_step(parameters_fold(st, ps.drop_last()), ps.last())
    }
}

/// `st` after one header line of a part: a `Content-Type` line makes the part a file;
/// any other line is read as `"; `-separated parameters.
pub open spec fn info_line_step(st: InfoView, line: Seq<char>) -> InfoView {
    if starts_with(line, "Content-Type: "@) {
        InfoView { content_type: line.subrange(14, line.len() as int), is_file: true, ..st }
    } else {
        parameters_fold(st, split(line, "\"; "@))
    }
}

/// `st` after the header lines `lines`, in order.
pub open spec fn info_fold(st: InfoView, lines: Seq<Seq<char>>) -> InfoView
    decreases lines.len(),
{
    if lines.len() == 0 {
        st
    } else {
        info_line_step(info_fold(st, lines.drop_last()), lines.last())
    }
}

/// Header lines that have said nothing.
pub open spec fn empty_info() -> InfoView {
    InfoView {
        name: Seq::empty(),
        filename: Seq::empty(),
        content_type: Seq::empty(),
        is_file: false,
        other: Seq::empty(),
    }
}

/// The header section of a part: what comes before its first `\r\n\r\n`.
pub open spec fn part_head(raw: Seq<char>) -> Seq<char> {
    match split_once(raw, "\r\n\r\n"@) {
        Some((h, b)) => h,
        None => raw,
    }
}

/// The content of a part: what comes after its first `\r\n\r\n`.
pub open spec fn part_body(raw: Seq<char>) -> Seq<char> {
    match split_once(raw, "\r\n\r\n"@) {
        Some((h, b)) => b,
        None => Seq::empty(),
    }
}

/// The part that `raw` (a part without its disposition prefix) describes.
pub open spec fn element_of(raw: Seq<char>) -> ElementView {
    let info = info_fold(empty_info(), split(part_head(raw), "\r\n"@));
    let body = part_body(raw);
    ElementView {
        name: info.name,
        content: if info.is_file {
            Seq::empty()
        } else {
            body
        },
        is_file: info.is_file,
        filename: info.filename,
        content_type: info.content_type,
        file: if info.is_file {
            encode_utf8(body)
        } else {
            Seq::empty()
        },
        other: info.other,
    }
}

/// `st` after one segment of a multipart body, cut at the boundary token: trailing
/// `\r\n--` is trimmed; a part with a disposition becomes a field or a file; an end
/// marker is dropped; anything else is kept in `other`.
pub open spec fn multipart_step(st: FormView, seg: Seq<char>) -> FormView {
    let t = trim_end(seg, "\r\n--"@);
    if contains(t, disposition()) {
        let e = element_of(remove_all(t, disposition()));
        if e.is_file {
            FormView {
                files: st.files.push(
                    FileView {
                        name: e.name,
                        filename: e.filename,
                        content_type: e.content_type,
                        file: e.file,
                    },
                ),
                ..st
            }
        } else {
            FormView { fields: st.fields.push((e.name, e.content)), ..st }
        }
    } else if is_end_marker(t) {
        st
    } else {
        FormView { other: st.other.push(t), ..st }
    }
}

/// `st` after the segments `segs`, in order.
pub open spec fn multipart_fold(st: FormView, segs: Seq<Seq<char>>) -> FormView
    decreases segs.len(),
{
    if segs.len() == 0 {
        st
    } else {
        multipart_step(multipart_fold(st, segs.drop_last()), segs.last())
    }
}

/// A multipart body `data` cut at the boundary token `bounds`.
pub open spec fn multipart_segments(data: Seq<char>, bounds: Seq<char>) -> Seq<Seq<char>> {
    if bounds.len() == 0 {
        seq![data]
    } else {
        split(data, bounds)
    }
}

impl MultipartFormElement {
    /// A part whose header lines have said nothing.
    fn empty() -> (r: MultipartFormElement)
        ensures
            r.info() == empty_info(),
            r.content@ == Seq::<char>::empty(),
            r.file@ == Seq::<u8>::empty(),
    {
        let r = MultipartFormElement {
            name: String::new(),
            content: String::new(),
            is_file: false,
            filename: String::new(),
            content_type: String::new(),
            file: Vec::new(),
            other: Vec::new(),
        };
        assert(r.other.deep_view() =~= Seq::<Seq<char>>::empty());
        assert(r.file@ =~= Seq::<u8>::empty());
        r
    }

    /// Reads one `"; `-separated parameter of the disposition line.
    fn add_parameter(&mut self, p: &str)
        ensures
            final(self).info() == parameter_step(old(self).info(), p@),
            final(self).content == old(self).content,
            final(self).file == old(self).file,
    {
        proof {
            reveal_strlit("name=\"");
            reveal_strlit("filename=\"");
            reveal_strlit("\"");
        }
        if starts_with_exec(p, "name=\"") {
            let rest = piece(p, 6, p.unicode_len());
            self.name = remove_all_str(rest.as_str(), "\"");
        } else if starts_with_exec(p, "filename=\"") {
            let rest = piece(p, 10, p.unicode_len());
            self.filename = remove_all_str(rest.as_str(), "\"");
        } else {
            let ghost before = self.other.deep_view();
            self.other.push(p.to_owned());
            assert(self.other.deep_view() =~= before.push(p@));
        }
    }

    /// Reads one header line of the part.
    fn add_info_line(&mut self, line: &str)
        ensures
            final(self).info() == info_line_step(old(self).info(), line@),
            final(self).content == old(self).content,
            final(self).file == old(self).file,
    {
        proof {
            reveal_strlit("Content-Type: ");
            reveal_strlit("\"; ");
        }
        if starts_with_exec(line, "Content-Type: ") {
            self.content_type = piece(line, 14, line.unicode_len());
            self.is_file = true;
        } else {
            let params = split_str(line, "\"; ");
            let mut j: usize = 0;
            let ghost start = self.info();
            while j < params.len()
                invariant
                    j <= params.len(),
                    self.info() == parameters_fold(start, params.deep_view().take(j as int)),
                    self.content == old(self).content,
                    self.file == old(self).file,
                decreases params.len() - j,
            {
                let ghost d = params.deep_view().take(j + 1);
                assert(d.drop_last() =~= params.deep_view().take(j as int));
                self.add_parameter(params[j].as_str());
                j = j + 1;
            }
            assert(params.deep_view().take(params.len() as int) =~= params.deep_view());
        }
    }

    /// Reads a multipart part, its disposition prefix taken out: the header lines up to
    /// the first `\r\n\r\n`, then the content, kept as bytes for a file and as text
    /// otherwise.
    pub fn new(raw: String) -> (r: MultipartFormElement)
        ensures
            r@ == element_of(raw@),
    {
        proof {
            reveal_strlit("\r\n\r\n");
            reveal_strlit("\r\n");
        }
        let (head, body) = match split_once_str(raw.as_str(), "\r\n\r\n") {
            Some((h, b)) => (h, b),
            None => (raw.clone(), String::new()),
        };
        assert(head@ == part_head(raw@));
        assert(body@ == part_body(raw@));
        let lines = split_str(head.as_str(), "\r\n");
        let mut el = MultipartFormElement::empty();
        let mut i: usize = 0;
        while i < lines.len()
            invariant
                i <= lines.len(),
                el.info() == info_fold(empty_info(), lines.deep_view().take(i as int)),
                el.content@ == Seq::<char>::empty(),
                el.file@ == Seq::<u8>::empty(),
            decreases lines.len() - i,
        {
            let ghost d = lines.deep_view().take(i + 1);
            assert(d.drop_last() =~= lines.deep_view().take(i as int));
            el.add_info_line(lines[i].as_str());
            i = i + 1;
        }
        assert(lines.deep_view().take(lines.len() as int) =~= lines.deep_view());
        if el.is_file {
            generate_field_vec_u8(&mut el.file, body.as_str());
        } else {
            el.content = body;
        }
        el
    }
}

impl MultipartFile {
    /// The file that a part which is a file describes.
    pub fn new(element: MultipartFormElement) -> (r: MultipartFile)
        ensures
            r@ == (FileView {
                name: element.name@,
                filename: element.filename@,
                content_type: element.content_type@,
                file: element.file@,
            }),
    {
        MultipartFile {
            name: element.name,
            filename: element.filename,
            content_type: element.content_type,
            file: element.file,
        }
    }
}

impl FormField {
    /// The field that a part which is no file describes.
    pub fn new(element: MultipartFormElement) -> (r: FormField)
        ensures
            r@ == (element.name@, element.content@),
    {
        FormField { name: element.name, value: element.content }
    }
}

/// What one segment of a multipart body turns out to be.
pub enum Part {
    /// An end marker, or nothing
    Skip,
    /// A part with a disposition
    Element(MultipartFormElement),
    /// A segment that is not understood
    Other(String),
}

/// Sorts one segment of a multipart body, cut at the boundary token.
pub fn multipart_part(seg: &str) -> (r: Part)
    ensures
        ({
            let t = trim_end(seg@, "\r\n--"@);
            if contains(t, disposition()) {
                r is Element && r->Element_0@ == element_of(remove_all(t, disposition()))
            } else if is_end_marker(t) {
                r is Skip
            } else {
                r is Other && r->Other_0@ == t
            }
        }),
{
    proof {
        reveal_strlit("Content-Disposition: form-data; ");
    }
    let t = trim_end_str(seg, "\r\n--");
    let tc = chars_of(t.as_str());
    let dc = chars_of("Content-Disposition: form-data; ");
    if contains_exec(&tc, &dc) {
        let stripped = remove_all_str(t.as_str(), "Content-Disposition: form-data; ");
        Part::Element(MultipartFormElement::new(stripped))
    } else if t.as_str().unicode_len() == 0 || same_text(t.as_str(), "\r\n") || same_text(
        t.as_str(),
        "--",
    ) || same_text(t.as_str(), "--\r\n") {
        Part::Skip
    } else {
        Part::Other(t)
    }
}

impl Default for FormData {
    fn default() -> (r: FormData)
        ensures
            r@ == empty_form(),
    {
        let r = FormData { form_field: Vec::new(), multipart_file: Vec::new(), other: Vec::new() };
        assert(r@.fields =~= Seq::<(Seq<char>, Seq<char>)>::empty());
        assert(r@.files =~= Seq::<FileView>::empty());
        assert(r@.other =~= Seq::<Seq<char>>::empty());
        r
    }
}

impl FormData {
    fn push_field(&mut self, f: FormField)
        ensures
            final(self)@ == (FormView { fields: old(self)@.fields.push(f@), ..old(self)@ }),
    {
        self.form_field.push(f);
        assert(fields_view(self.form_field@) =~= fields_view(old(self).form_field@).push(f@));
    }

    fn push_file(&mut self, f: MultipartFile)
        ensures
            final(self)@ == (FormView { files: old(self)@.files.push(f@), ..old(self)@ }),
    {
        self.multipart_file.push(f);
        assert(files_view(self.multipart_file@) =~= files_view(old(self).multipart_file@).push(
            f@,
        ));
    }

    fn push_other(&mut self, s: String)
        ensures
            final(self)@ == (FormView { other: old(self)@.other.push(s@), ..old(self)@ }),
    {
        self.other.push(s);
        assert(self.other.deep_view() =~= old(self).other.deep_view().push(s@));
    }

    /// Adds the fields of a URL-encoded body: its `&`-separated segments, each cut at its
    /// first `=` into a name and a value, both percent-decoded; a segment without `=` is
    /// kept in `other`.
    pub fn add_url_encoded(&mut self, data: String)
        ensures
            final(self)@ == url_encoded_fold(old(self)@, split(data@, "&"@)),
    {
        proof {
            reveal_strlit("&");
        }
        let segs = split_str(data.as_str(), "&");
        let mut i: usize = 0;
        while i < segs.len()
            invariant
                i <= segs.len(),
                self@ == url_encoded_fold(old(self)@, segs.deep_view().take(i as int)),
            decreases segs.len() - i,
        {
            let ghost d = segs.deep_view().take(i + 1);
            assert(d.drop_last() =~= segs.deep_view().take(i as int));
            let seg = segs[i].as_str();
            match split_once_str(seg, "=") {
                Some((n, v)) => {
                    let name = percent_decode_lossy(n.as_str());
                    let value = percent_decode_lossy(v.as_str());
                    self.push_field(FormField { name, value });
                },
                None => {
                    self.push_other(seg.to_owned());
                },
            }
            i = i + 1;
        }
        assert(segs.deep_view().take(segs.len() as int) =~= segs.deep_view());
    }

    /// Adds one segment of a multipart body.
    fn add_part(&mut self, seg: &str)
        ensures
            final(self)@ == multipart_step(old(self)@, seg@),
    {
        match multipart_part(seg) {
            Part::Element(element) => {
                if element.is_file {
                    self.push_file(MultipartFile::new(element));
                } else {
                    self.push_field(FormField::new(element));
                }
            },
            Part::Skip => {},
            Part::Other(t) => {
                self.push_other(t);
            },
        }
    }

    /// Adds the parts of a multipart body `data`, cut at the boundary token `bounds`:
    /// parts with a disposition become fields or files, end markers are dropped, and
    /// other segments are kept in `other`.
    pub fn add_multipart(&mut self, data: String, bounds: &String)
        ensures
            final(self)@ == multipart_fold(old(self)@, multipart_segments(data@, bounds@)),
    {
        let segs: Vec<String> = if bounds.as_str().unicode_len() == 0 {
            let mut v: Vec<String> = Vec::new();
            v.push(data.clone());
            assert(v.deep_view() =~= seq![data@]);
            v
        } else {
            split_str(data.as_str(), bounds.as_str())
        };
        let mut i: usize = 0;
        while i < segs.len()
            invariant
                i <= segs.len(),
                segs.deep_view() == multipart_segments(data@, bounds@),
                self@ == multipart_fold(old(self)@, segs.deep_view().take(i as int)),
            decreases segs.len() - i,
        {
            let ghost d = segs.deep_view().take(i + 1);
            assert(d.drop_last() =~= segs.deep_view().take(i as int));
            self.add_part(segs[i].as_str());
            i = i + 1;
        }
        assert(segs.deep_view().take(segs.len() as int) =~= segs.deep_view());
    }
}

} // verus!
