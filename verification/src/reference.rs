//! A request to keep a reference image.

use crate::ids::{is_new_id, new_id};
use crate::model::{ImageInput, ReferenceImage, ReferenceView};
use crate::paths::{extension_for, image_extension, FilePath, PathView};
use crate::store::{AppStore, StoreView};
use crate::text::joined;
use crate::time::{is_now_text, now_rfc3339};
use vstd::prelude::*;
use vstd::string::*;

verus! {

/// A reference image that is to be written.
#[derive(Debug, PartialEq)]
pub struct ReferenceFile {
    pub id: String,
    /// The directory that has to exist.
    pub dir: FilePath,
    /// Where the image goes.
    pub path: FilePath,
    pub input: ImageInput,
}

/// The directory of the reference images.
pub open spec fn references_dir(store: StoreView) -> PathView {
    store.data_dir.join("references"@)
}

/// The name of the file for the reference image `id`, called `file_name`, of the media type `mime`.
pub open spec fn reference_name(id: Seq<char>, file_name: Seq<char>, mime: Seq<char>) -> Seq<char> {
    id + "."@ + image_extension(file_name, mime)
}

/// Says where the reference image `input` goes, under the name `id`.
pub fn place_reference(store: &AppStore, input: ImageInput, id: String) -> (r: Result<ReferenceFile, String>)
    ensures
        match r {
            Ok(f) => {
                &&& input.bytes@.len() > 0
                &&& f.id@ == id@
                &&& f.dir@ == references_dir(store@)
                &&& f.path@ == references_dir(store@).join(
                    reference_name(id@, input.file_name@, input.mime@),
                )
                &&& f.input == input
            },
            Err(e) => input.bytes@.len() == 0 && e@ == "图片为空"@,
        },
{
    if input.bytes.len() == 0 {
        return Err("图片为空".to_string());
    }
    let dir = store.references_dir();
    let mut name = joined(id.as_str(), ".");
    name.append(extension_for(input.file_name.as_str(), input.mime.as_str()));
    let path = dir.join(name.as_str());
    Ok(ReferenceFile { id, dir, path, input })
}

/// Says where the reference image `input` goes, under a new name.
pub fn save_reference_image(store: &AppStore, input: ImageInput) -> (r: Result<ReferenceFile, String>)
    ensures
        match r {
            Ok(f) => {
                &&& input.bytes@.len() > 0
                &&& is_new_id(f.id@, "ref_"@)
                &&& f.dir@ == references_dir(store@)
                &&& f.path@ == references_dir(store@).join(
                    reference_name(f.id@, input.file_name@, input.mime@),
                )
                &&& f.input == input
            },
            Err(e) => input.bytes@.len() == 0 && e@ == "图片为空"@,
        },
{
    place_reference(store, input, new_id("ref_"))
}

/// The record of the reference image `file`, written to `stored_path` at `created_at`.
pub open spec fn reference_record(
    file: ReferenceFile,
    stored_path: Seq<char>,
    created_at: Seq<char>,
) -> ReferenceView {
    ReferenceView {
        id: file.id@,
        name: file.input.file_name@,
        mime: file.input.mime@,
        size_bytes: file.input.bytes@.len() as u64,
        stored_path,
        created_at,
    }
}

/// Describes the reference image `file`, which was written to `stored_path` at `created_at`.
pub fn describe_reference(file: ReferenceFile, stored_path: String, created_at: String) -> (r: ReferenceImage)
    ensures
        r@ == reference_record(file, stored_path@, created_at@),
{
    let size_bytes: u64 = file.input.bytes.len() as u64;
    ReferenceImage {
        id: file.id,
        name: file.input.file_name,
        mime: file.input.mime,
        size_bytes,
        stored_path,
        created_at,
    }
}

/// Describes the reference image `file`, which was written to `stored_path` now.
pub fn record_reference(file: ReferenceFile, stored_path: String) -> (r: ReferenceImage)
    ensures
        r@ == reference_record(file, stored_path@, r@.created_at),
        is_now_text(r@.created_at),
{
    describe_reference(file, stored_path, now_rfc3339())
}

}
