//! A multipart form on its own: its fields, its files, and the segments not understood.
use vstd::prelude::*;

use crate::form::{
    multipart_part, multipart_step, FileView, FormView, MultipartFile, MultipartFormElement, Part,
};

verus! {

/// A text field of a multipart form.
pub struct MultipartFormField {
    /// Field name
    pub name: String,
    /// Field value
    pub value: String,
}

impl View for MultipartFormField {
    type V = (Seq<char>, Seq<char>);

    open spec fn view(&self) -> (Seq<char>, Seq<char>) {
        (self.name@, self.value@)
    }
}

impl MultipartFormField {
    /// The field that a part which is no file describes.
    pub fn new(element: MultipartFormElement) -> (r: MultipartFormField)
        ensures
            r@ == (element.name@, element.content@),
    {
        MultipartFormField { name: element.name, value: element.content }
    }
}

/// The parts of a multipart form, sorted into fields and files.
pub struct MultipartFormData {
    /// Text fields
    pub multipart_form_field: Vec<MultipartFormField>,
    /// Uploaded files
    pub multipart_file: Vec<MultipartFile>,
    /// Segments that could not be understood
    pub other: Vec<String>,
}

impl View for MultipartFormData {
    type V = FormView;

    open spec fn view(&self) -> FormView {
        FormView {
            fields: self.multipart_form_field@.map_values(|f: MultipartFormField| f@),
            files: self.multipart_file@.map_values(|f: MultipartFile| f@),
            other: self.other.deep_view(),
        }
    }
}

impl Default for MultipartFormData {
    fn default() -> (r: MultipartFormData)
        ensures
            r@ == (FormView { fields: Seq::empty(), files: Seq::empty(), other: Seq::empty() }),
    {
        let r = MultipartFormData {
            multipart_form_field: Vec::new(),
            multipart_file: Vec::new(),
            other: Vec::new(),
        };
        assert(r@.fields =~= Seq::<(Seq<char>, Seq<char>)>::empty());
        assert(r@.files =~= Seq::<FileView>::empty());
        assert(r@.other =~= Seq::<Seq<char>>::empty());
        r
    }
}

impl MultipartFormData {
    /// Adds one segment of a multipart body, cut at the boundary token: a part with a
    /// disposition becomes a field or a file, an end marker is dropped, and anything
    /// else is kept in `other`.
    pub fn add(&mut self, data: String)
        ensures
            final(self)@ == multipart_step(old(self)@, data@),
    {
        match multipart_part(data.as_str()) {
            Part::Element(element) => {
                if element.is_file {
                    let f = MultipartFile::new(element);
                    let ghost v = f@;
                    self.multipart_file.push(f);
                    assert(self@.files =~= old(self)@.files.push(v));
                } else {
                    let f = MultipartFormField::new(element);
                    let ghost v = f@;
                    self.multipart_form_field.push(f);
                    assert(self@.fields =~= old(self)@.fields.push(v));
                }
            },
            Part::Skip => {},
            Part::Other(t) => {
                let ghost v = t@;
                self.other.push(t);
                assert(self@.other =~= old(self)@.other.push(v));
            },
        }
    }
}

} // verus!
