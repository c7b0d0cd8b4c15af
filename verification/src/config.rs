//! The manifest: the pipeline's input configuration, naming the output
//! document and listing the image URLs, and its parser.
//!
//! The manifest is carried as JSON text of the shape
//! `{ "fileName": string, "convertFileJson": { "imageCount": integer,
//! "images": [string, ...] } }`. The `imageCount` field is advisory
//! metadata: nothing requires it to match the length of `images`.
use crate::jsonmodel::{
    get_field,
    json_model,
    json_parse_of,
    parse_json,
    value_as_array,
    value_as_str,
    value_as_u64,
    JsonModel,
};
use crate::PipelineError;
use vstd::prelude::*;

verus! {

/// A parsed manifest.
pub struct Manifest {
    /// The name of the document file to write.
    pub file_name: String,
    /// Advisory image count; not checked against `images`.
    pub image_count: u32,
    /// The image URLs, in the order their pages will appear.
    pub images: Vec<String>,
}

/// The mathematical content of a manifest.
#[verifier::ext_equal]
pub ghost struct ManifestView {
    /// The name of the document file to write.
    pub file_name: Seq<char>,
    /// Advisory image count.
    pub image_count: u32,
    /// The image URLs, in order.
    pub images: Seq<Seq<char>>,
}

impl View for Manifest {
    type V = ManifestView;

    open spec fn view(&self) -> ManifestView {
        ManifestView {
            file_name: self.file_name@,
            image_count: self.image_count,
            images: self.images.deep_view(),
        }
    }
}

/// The field `key` of a JSON object, `None` on a missing field or on a
/// value that is not an object.
pub open spec fn obj_field(j: JsonModel, key: Seq<char>) -> Option<JsonModel> {
    match j {
        JsonModel::Obj(m) => if m.contains_key(key) {
            Some(m[key])
        } else {
            None
        },
        _ => None,
    }
}

/// Whether every element of a JSON array is a string.
pub open spec fn all_strings(items: Seq<JsonModel>) -> bool {
    forall|i: int| 0 <= i < items.len() ==> items[i] is Str
}

/// The characters of a JSON string, and the empty sequence for any other
/// value.
pub open spec fn str_content(j: JsonModel) -> Seq<char> {
    match j {
        JsonModel::Str(s) => s,
        _ => Seq::empty(),
    }
}

/// The strings of a JSON array of strings, in order.
pub open spec fn json_string_items(items: Seq<JsonModel>) -> Seq<Seq<char>> {
    items.map_values(|m: JsonModel| str_content(m))
}

/// The URL list a JSON value denotes: it must be an array whose elements
/// are all strings.
pub open spec fn images_of_json(j: JsonModel) -> Option<Seq<Seq<char>>> {
    match j {
        JsonModel::Arr(items) => if all_strings(items) {
            Some(json_string_items(items))
        } else {
            None
        },
        _ => None,
    }
}

/// The count a JSON value denotes: it must be an integer number that fits
/// in a `u32`.
pub open spec fn count_of_json(j: JsonModel) -> Option<u32> {
    match j {
        JsonModel::Num(n) => match n {
            Some(c) => if c <= u32::MAX {
                Some(c as u32)
            } else {
                None
            },
            None => None,
        },
        _ => None,
    }
}

/// The manifest a parsed JSON value denotes, or `None` when the value does
/// not have the manifest's shape.
pub open spec fn manifest_of_json(j: JsonModel) -> Option<ManifestView> {
    match (obj_field(j, "fileName"@), obj_field(j, "convertFileJson"@)) {
        (Some(JsonModel::Str(name)), Some(cj)) => {
            match (obj_field(cj, "imageCount"@), obj_field(cj, "images"@)) {
                (Some(cnt), Some(imgs)) => {
                    match (count_of_json(cnt), images_of_json(imgs)) {
                        (Some(c), Some(urls)) => Some(
                            ManifestView { file_name: name, image_count: c, images: urls },
                        ),
                        _ => None,
                    }
                },
                _ => None,
            }
        },
        _ => None,
    }
}

/// The manifest a text denotes: the text must be well-formed JSON of the
/// manifest's shape.
pub open spec fn manifest_of_text(text: Seq<char>) -> Option<ManifestView> {
    match json_parse_of(text) {
        Some(j) => manifest_of_json(j),
        None => None,
    }
}

/// Parse a manifest from its JSON text.
///
/// Returns the manifest exactly when the text denotes one, and
/// `PipelineError::Parse` on every text that is not well-formed JSON or
/// does not have the manifest's shape.
#[verifier::loop_isolation(false)]
pub fn parse_manifest(text: &str) -> (r: Result<Manifest, PipelineError>)
    ensures
        (match manifest_of_text(text@) {
            Some(mv) => r matches Ok(m) && m@ == mv,
            None => r matches Err(PipelineError::Parse),
        }),
{
    let root = match parse_json(text) {
        Some(v) => v,
        None => { return Err(PipelineError::Parse) },
    };
    let ghost j = json_model(root);
    let name_val = match get_field(&root, "fileName") {
        Some(f) => f,
        None => { return Err(PipelineError::Parse) },
    };
    let name = match value_as_str(name_val) {
        Some(s) => s,
        None => { return Err(PipelineError::Parse) },
    };
    let cj_val = match get_field(&root, "convertFileJson") {
        Some(f) => f,
        None => { return Err(PipelineError::Parse) },
    };
    let count_val = match get_field(cj_val, "imageCount") {
        Some(f) => f,
        None => { return Err(PipelineError::Parse) },
    };
    let count = match value_as_u64(count_val) {
        Some(c) => c,
        None => { return Err(PipelineError::Parse) },
    };
    if count > u32::MAX as u64 {
        return Err(PipelineError::Parse);
    }
    let imgs_val = match get_field(cj_val, "images") {
        Some(f) => f,
        None => { return Err(PipelineError::Parse) },
    };
    let arr = match value_as_array(imgs_val) {
        Some(a) => a,
        None => { return Err(PipelineError::Parse) },
    };
    let ghost items = arr_items(json_model(*imgs_val));
    let mut images: Vec<String> = Vec::new();
    let mut i: usize = 0;
    while i < arr.len()
        invariant
            0 <= i <= arr.len(),
            arr@.len() == items.len(),
            forall|k: int| 0 <= k < items.len() ==> #[trigger] json_model(arr@[k]) == items[k],
            forall|k: int| 0 <= k < i ==> items[k] is Str,
            images@.len() == i,
            forall|k: int| 0 <= k < i ==> #[trigger] images@[k]@ == str_content(items[k]),
        decreases arr.len() - i,
    {
        let item = &arr[i];
        match value_as_str(item) {
            Some(s) => { images.push(s.to_owned()) },
            None => {
                return Err(PipelineError::Parse);
            },
        }
        i = i + 1;
    }
    let m = Manifest { file_name: name.to_owned(), image_count: count as u32, images };
    proof {
        assert(m@.images =~~= json_string_items(items));
        assert(manifest_of_text(text@) matches Some(mv) && m@ =~~= mv);
    }
    Ok(m)
}

/// The elements of a JSON array, and the empty sequence for any other
/// value.
pub open spec fn arr_items(j: JsonModel) -> Seq<JsonModel> {
    match j {
        JsonModel::Arr(items) => items,
        _ => Seq::empty(),
    }
}

} // verus!
