//! A request to download a generated image.

use crate::history::{find_item, first_item, has_item, item_index, item_of, unknown_item};
use crate::laws::names::plain_paths_have_one_name;
use crate::model::{text_if_any, ItemView};
use crate::paths::{
    can_be_extension, can_be_name, extension_of, last_name, may_be_verbatim, path_extension, reads_alike, BaseDir,
    FilePath, PathView,
};
use crate::store::{AppStore, StoreView};
use crate::text::{blank, is_blank, occurs_in, same_text};
use vstd::prelude::*;

verus! {

/// A file to copy, and where to.
#[derive(Debug, PartialEq)]
pub struct Download {
    /// The id of the item.
    pub id: String,
    /// The path of the stored image.
    pub source: String,
    /// The directory to copy it to.
    pub dir: FilePath,
    /// The extension of the copy.
    pub ext: String,
}

/// The extension for a copy of a file with the extension `found`.
pub open spec fn copy_extension(found: Option<Seq<char>>) -> Seq<char> {
    match found {
        Some(e) if e.len() > 0 => e,
        _ => "png"@,
    }
}

/// The extension for a copy of a file with the extension `found`.
pub fn download_extension(found: Option<String>) -> (r: String)
    ensures
        r@ == copy_extension(text_if_any(found)),
{
    match found {
        Some(e) => if e.as_str().is_empty() {
            "png".to_string()
        } else {
            e
        },
        None => "png".to_string(),
    }
}

/// Whether `ext` can be the extension for a copy of the file at `path`: for a path that platforms read
/// alike it is the one that they find; for any other it is one that some platform can find; and in any
/// case it is the default, or stands in the path and holds no full stop.
pub open spec fn can_extend_copy(path: Seq<char>, ext: Seq<char>) -> bool {
    &&& reads_alike(path) ==> ext == copy_extension(extension_of(last_name(path, false)))
    &&& !may_be_verbatim(path) ==> exists|found: Option<Seq<char>>|
        #[trigger] can_be_extension(path, found) && ext == copy_extension(found)
    &&& ext == "png"@ || (ext.len() > 0 && occurs_in(ext, path) && !ext.contains('.'))
}

/// Whether the image of `item` is there.
pub open spec fn is_downloadable(item: ItemView) -> bool {
    item.status == "completed"@ && !is_blank(item.stored_path)
}

/// What keeps the image of the item `id` from being downloaded, if anything.
pub open spec fn download_fault(h: Seq<ItemView>, id: Seq<char>) -> Option<Seq<char>> {
    if !has_item(h, id) {
        Some(unknown_item())
    } else if !is_downloadable(item_of(h, id)) {
        Some("图片尚未生成完成"@)
    } else {
        None
    }
}

/// The directory to download to: the platform's, if it assigns one, else one of the application's.
pub open spec fn download_dir(store: StoreView, assigned: bool) -> PathView {
    if assigned {
        PathView { base: BaseDir::Downloads, names: Seq::empty() }
    } else {
        store.data_dir.join("downloads"@)
    }
}

/// Says what to copy, and where to, for a download of the image of the item `history_id`.
/// `assigned` tells whether the platform assigns a directory for downloads.
pub fn download_result(store: &AppStore, history_id: &str, assigned: bool) -> (r: Result<Download, String>)
    ensures
        match r {
            Ok(d) => {
                let h = store@.data.history;
                let path = item_of(h, history_id@).stored_path;
                &&& download_fault(h, history_id@) is None
                &&& first_item(h, history_id@, item_index(h, history_id@))
                &&& d.id@ == history_id@
                &&& d.source@ == path
                &&& d.dir@ == download_dir(store@, assigned)
                &&& can_extend_copy(path, d.ext@)
            },
            Err(e) => download_fault(store@.data.history, history_id@) == Some(e@),
        },
{
    match find_item(&store.data.history, history_id) {
        Some(i) => {
            let item = &store.data.history[i];
            if !same_text(item.status.as_str(), "completed") || blank(item.stored_path.as_str()) {
                return Err("图片尚未生成完成".to_string());
            }
            let dir = if assigned { FilePath::new(BaseDir::Downloads) } else { store.downloads_dir() };
            let found = path_extension(item.stored_path.as_str());
            proof {
                let path = item@.stored_path;
                if reads_alike(path) {
                    let name = choose|name: Option<Seq<char>>| #[trigger]
                        can_be_name(path, name) && text_if_any(found) == extension_of(name);
                    plain_paths_have_one_name(path, name);
                }
            }
            let ext = download_extension(found);
            Ok(Download { id: item.id.clone(), source: item.stored_path.clone(), dir, ext })
        },
        None => Err("历史记录不存在".to_string()),
    }
}

}
