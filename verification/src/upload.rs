//! A multipart form that may carry an image.
//!
//! The parts of the form arrive one at a time. The part named `image` is
//! stored as a file and leaves only the path under which it is served; every
//! other part is a text field, kept under its name. Reading the parts and
//! writing the file are for the caller: this module decides what is done with
//! each part and keeps what the form has held so far.

use vstd::prelude::*;

use crate::errors::StatusCode;
use crate::text::{joined, same_text};

verus! {

/// The name of the part that carries the image.
pub const IMAGE_FIELD: &'static str = "image";

/// The directory that images are stored in.
pub const UPLOAD_DIR: &'static str = "uploads/items";

/// What is done with a part of the form.
#[derive(Clone, Copy, Debug, PartialEq, Eq, Structural)]
pub enum FieldKind {
    /// Its bytes are stored as an image.
    Image,
    /// Its text is kept as a field.
    Text,
}

/// Why a form was refused.
#[derive(Debug)]
pub enum UploadFailure {
    /// The request could not be read as a multipart form.
    Malformed(String),
    /// The image could not be stored.
    Storage(String),
}

/// The text fields of a form, each name at most once, and the path of its
/// image if it had one.
#[derive(Debug)]
pub struct FormWithImage {
    fields: Vec<(String, String)>,
    image_path: Option<String>,
}

/// Where the field of this name stands among `fields`, if there is one.
fn position(fields: &Vec<(String, String)>, name: &str) -> (r: Option<usize>)
    ensures
        match r {
            Some(i) => i < fields.len() && fields[i as int].0@ == name@,
            None => forall|k: int| 0 <= k < fields.len() ==> (#[trigger] fields[k]).0@ != name@,
        },
{
    let mut i: usize = 0;
    while i < fields.len()
        invariant
            i <= fields.len(),
            forall|k: int| 0 <= k < i ==> (#[trigger] fields[k]).0@ != name@,
        decreases fields.len() - i,
    {
        if same_text(fields[i].0.as_str(), name) {
            return Some(i);
        }
        i += 1;
    }
    None
}

impl FormWithImage {
    /// No name occurs twice among the fields.
    #[verifier::type_invariant]
    spec fn names_differ(&self) -> bool {
        forall|i: int, j: int|
            0 <= i < j < self.fields.len() ==> (#[trigger] self.fields[i]).0@ != (
            #[trigger] self.fields[j]).0@
    }

    /// Some field has this name.
    spec fn has(&self, name: Seq<char>) -> bool {
        exists|i: int| 0 <= i < self.fields.len() && (#[trigger] self.fields[i]).0@ == name
    }

    /// The text fields: the value kept under each name.
    pub closed spec fn values(&self) -> Map<Seq<char>, Seq<char>> {
        Map::new(
            |name: Seq<char>| self.has(name),
            |name: Seq<char>|
                self.fields[choose|i: int|
                    0 <= i < self.fields.len() && (#[trigger] self.fields[i]).0@ == name].1@,
        )
    }

    /// The path the image is served under, if the form had one.
    pub closed spec fn image(&self) -> Option<Seq<char>> {
        match self.image_path {
            Some(path) => Some(path@),
            None => None,
        }
    }

    /// A form that has held nothing yet.
    pub fn new() -> (form: FormWithImage)
        ensures
            form.values() == Map::<Seq<char>, Seq<char>>::empty(),
            form.image() is None,
    {
        let form = FormWithImage { fields: Vec::new(), image_path: None };
        assert(form.values() =~= Map::<Seq<char>, Seq<char>>::empty());
        form
    }

    /// Keeps a text field. A field of the same name that the form held before
    /// gives way to it.
    pub fn insert_field(&mut self, name: String, value: String)
        ensures
            final(self).values() == old(self).values().insert(name@, value@),
            final(self).image() == old(self).image(),
    {
        proof {
            use_type_invariant(&*self);
        }
        let ghost before = *self;
        let mut fields: Vec<(String, String)> = Vec::new();
        std::mem::swap(&mut self.fields, &mut fields);
        let found = position(&fields, name.as_str());
        let ghost at = match found {
            Some(i) => i as int,
            None => fields.len() as int,
        };
        match found {
            Some(i) => {
                fields.set(i, (name, value));
            },
            None => {
                fields.push((name, value));
            },
        }
        self.fields = fields;
        assert(self.fields[at].0@ == name@ && self.fields[at].1@ == value@);
        assert forall|key: Seq<char>| self.has(key) == (key == name@ || before.has(key)) by {
            if before.has(key) && key != name@ {
                let k = choose|k: int|
                    0 <= k < before.fields.len() && (#[trigger] before.fields[k]).0@ == key;
                assert(self.fields[k].0@ == key);
            }
            if self.has(key) && key != name@ {
                let k = choose|k: int|
                    0 <= k < self.fields.len() && (#[trigger] self.fields[k]).0@ == key;
                assert(before.fields[k].0@ == key);
            }
        }
        assert forall|key: Seq<char>| self.has(key) implies #[trigger] self.values()[key]
            == before.values().insert(name@, value@)[key] by {
            let k = choose|k: int|
                0 <= k < self.fields.len() && (#[trigger] self.fields[k]).0@ == key;
            if key != name@ {
                let b = choose|b: int|
                    0 <= b < before.fields.len() && (#[trigger] before.fields[b]).0@ == key;
                assert(self.fields[b].0@ == key);
                assert(b == k);
            } else {
                assert(k == at);
            }
        }
        assert(self.values() =~= before.values().insert(name@, value@));
    }

    /// The value kept under a name.
    pub fn get(&self, name: &str) -> (r: Option<&String>)
        ensures
            match r {
                Some(value) => self.values().contains_key(name@) && self.values()[name@] == value@,
                None => !self.values().contains_key(name@),
            },
    {
        proof {
            use_type_invariant(self);
        }
        match position(&self.fields, name) {
            Some(i) => {
                proof {
                    let k = choose|k: int|
                        0 <= k < self.fields.len() && (#[trigger] self.fields[k]).0@ == name@;
                    assert(k == i);
                }
                Some(&self.fields[i].1)
            },
            None => None,
        }
    }

    /// The path the image is served under, if the form had one.
    pub fn image_path(&self) -> (r: Option<&String>)
        ensures
            match r {
                Some(path) => self.image() == Some(path@),
                None => self.image() is None,
            },
    {
        self.image_path.as_ref()
    }

    /// Records that the image was stored under `file_name`: the form's image
    /// is from now on served under `/uploads/items/` and that name.
    pub fn set_image(&mut self, file_name: &str)
        ensures
            final(self).image() == Some(served_path(file_name@)),
            final(self).values() == old(self).values(),
    {
        proof {
            use_type_invariant(&*self);
        }
        self.image_path = Some(image_url(file_name));
    }
}

/// What is done with the part of this name: the part named `image` is the
/// image, every other part a text field.
pub fn field_kind(name: &str) -> (r: FieldKind)
    ensures
        r == if name@ == IMAGE_FIELD@ {
            FieldKind::Image
        } else {
            FieldKind::Text
        },
{
    if same_text(name, IMAGE_FIELD) {
        FieldKind::Image
    } else {
        FieldKind::Text
    }
}

/// The file name of the image with this identifier.
pub open spec fn file_name_of(id: Seq<char>) -> Seq<char> {
    id + ".jpg"@
}

/// Where the file of this name is written.
pub open spec fn stored_path(file_name: Seq<char>) -> Seq<char> {
    "uploads/items/"@ + file_name
}

/// Where the file of this name is served.
pub open spec fn served_path(file_name: Seq<char>) -> Seq<char> {
    "/uploads/items/"@ + file_name
}

/// Names the file for an image from the identifier drawn for it.
pub fn image_file_name(id: &str) -> (r: String)
    ensures
        r@ == file_name_of(id@),
{
    joined(id, ".jpg")
}

/// The path to write an image file to, relative to the working directory.
pub fn image_store_path(file_name: &str) -> (r: String)
    ensures
        r@ == stored_path(file_name@),
{
    joined("uploads/items/", file_name)
}

/// The path under which an image file is served.
pub fn image_url(file_name: &str) -> (r: String)
    ensures
        r@ == served_path(file_name@),
{
    joined("/uploads/items/", file_name)
}

/// An image is served under the path it is written to, from the root.
pub proof fn served_where_stored(file_name: Seq<char>)
    ensures
        served_path(file_name) == seq!['/'] + stored_path(file_name),
        stored_path(file_name) == UPLOAD_DIR@ + seq!['/'] + file_name,
{
    reveal_strlit("uploads/items/");
    reveal_strlit("/uploads/items/");
    reveal_strlit("uploads/items");
    assert("/uploads/items/"@ =~= seq!['/'] + "uploads/items/"@);
    assert("uploads/items/"@ =~= "uploads/items"@ + seq!['/']);
    assert(served_path(file_name) =~= seq!['/'] + stored_path(file_name));
    assert(stored_path(file_name) =~= UPLOAD_DIR@ + seq!['/'] + file_name);
}

impl UploadFailure {
    /// How the failure is reported: a form that cannot be read is the
    /// client's fault, a file that cannot be written the server's. The text
    /// is passed on as it is.
    pub fn rejection(self) -> (r: (StatusCode, String))
        ensures
            match self {
                UploadFailure::Malformed(text) => r.0.value() == 400 && r.1 == text,
                UploadFailure::Storage(text) => r.0.value() == 500 && r.1 == text,
            },
    {
        match self {
            UploadFailure::Malformed(text) => (StatusCode::bad_request(), text),
            UploadFailure::Storage(text) => (StatusCode::internal_server_error(), text),
        }
    }
}

} // verus!
