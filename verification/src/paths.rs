//! Places in the file system, and the names of the files that the application writes.

use crate::model::{copy_texts, text_if_any, texts};
use crate::text::{
    ascii_lowered, chars_of, contains, decimal, decimal_text, ends_with, has_suffix, joined,
    occurs_in, strip, strip_of, to_ascii_lower, CharSet,
};
use vstd::prelude::*;
use vstd::string::*;

verus! {

/// A directory that the platform assigns.
#[derive(Debug, Clone, Copy, PartialEq, Eq, Structural)]
pub enum BaseDir {
    /// The directory for the application's own data.
    AppData,
    /// The user's directory for downloads.
    Downloads,
}

/// A place in the file system: a directory that the platform assigns, and the names that lead
/// from there to the place, outermost first.
#[derive(Debug, PartialEq)]
pub struct FilePath {
    pub base: BaseDir,
    pub names: Vec<String>,
}

/// What a [`FilePath`] holds.
#[verifier::ext_equal]
pub struct PathView {
    pub base: BaseDir,
    pub names: Seq<Seq<char>>,
}

impl PathView {
    /// The place `name` in the directory `self`.
    pub open spec fn join(self, name: Seq<char>) -> PathView {
        PathView { base: self.base, names: self.names.push(name) }
    }
}

impl View for FilePath {
    type V = PathView;

    open spec fn view(&self) -> PathView {
        PathView { base: self.base, names: texts(self.names@) }
    }
}

impl Clone for FilePath {
    fn clone(&self) -> (r: Self)
        ensures
            r@ == self@,
    {
        FilePath { base: self.base, names: copy_texts(&self.names) }
    }
}

impl FilePath {
    /// The directory `base` itself.
    pub fn new(base: BaseDir) -> (r: FilePath)
        ensures
            r@ == (PathView { base, names: Seq::empty() }),
    {
        let r = FilePath { base, names: Vec::new() };
        assert(r@.names =~= Seq::empty());
        r
    }

    /// The place `name` in the directory `self`.
    pub fn join(&self, name: &str) -> (r: FilePath)
        ensures
            r@ == self@.join(name@),
    {
        let mut names = copy_texts(&self.names);
        names.push(name.to_string());
        assert(texts(names@) =~= texts(self.names@).push(name@));
        FilePath { base: self.base, names }
    }
}

/// The extension for an image called `file_name`, of the media type `mime`.
pub open spec fn image_extension(file_name: Seq<char>, mime: Seq<char>) -> Seq<char> {
    let name = ascii_lowered(file_name);
    if has_suffix(name, ".jpg"@) || has_suffix(name, ".jpeg"@) || occurs_in("jpeg"@, mime) {
        "jpg"@
    } else if has_suffix(name, ".webp"@) || occurs_in("webp"@, mime) {
        "webp"@
    } else {
        "png"@
    }
}

/// The extension for an image called `file_name`, of the media type `mime`.
pub fn extension_for(file_name: &str, mime: &str) -> (r: &'static str)
    ensures
        r@ == image_extension(file_name@, mime@),
{
    let lower = to_ascii_lower(file_name);
    if ends_with(lower.as_str(), ".jpg") || ends_with(lower.as_str(), ".jpeg") || contains(mime, "jpeg") {
        "jpg"
    } else if ends_with(lower.as_str(), ".webp") || contains(mime, "webp") {
        "webp"
    } else {
        "png"
    }
}

/// Whether `c` stands between the names in a path: a slash does, and on Windows a backslash too.
pub open spec fn is_slash(c: char, windows: bool) -> bool {
    c == '/' || (windows && c == '\\')
}

/// What stands behind the last slash of `path`.
pub open spec fn last_segment(path: Seq<char>, windows: bool) -> Seq<char>
    decreases path.len(),
{
    if path.len() == 0 || is_slash(path.last(), windows) {
        Seq::empty()
    } else {
        last_segment(path.drop_last(), windows).push(path.last())
    }
}

/// The last name in `path`, where slashes at the end do not count, nor does a full stop that
/// stands for the directory itself. There is none in a path that ends with the directory above.
pub open spec fn last_name(path: Seq<char>, windows: bool) -> Option<Seq<char>>
    decreases path.len(),
{
    let segment = last_segment(path, windows);
    if path.len() == 0 {
        None
    } else if is_slash(path.last(), windows) || segment == seq!['.'] {
        last_name(path.drop_last(), windows)
    } else if segment == seq!['.', '.'] {
        None
    } else {
        Some(segment)
    }
}

/// Whether `path` begins with two slashes. Windows reads that as the beginning of a share, as in
/// `\\server\share`, or of a device, as in `\\.\COM42`, if it goes on like one.
pub open spec fn begins_with_two_slashes(path: Seq<char>) -> bool {
    path.len() >= 2 && is_slash(path[0], true) && is_slash(path[1], true)
}

/// Whether Windows may take `path` word by word, as in `\\?\pictures`, where a slash is not a slash.
pub open spec fn may_be_verbatim(path: Seq<char>) -> bool {
    begins_with_two_slashes(path) && path.len() >= 3 && path[2] == '?'
}

/// Whether the second character of `path` is the colon that follows the letter of a drive.
pub open spec fn has_colon(path: Seq<char>) -> bool {
    path.len() >= 2 && path[1] == ':'
}

/// Whether `c` is a letter of ASCII.
pub open spec fn is_letter(c: char) -> bool {
    'a' <= c <= 'z' || 'A' <= c <= 'Z'
}

/// Whether Windows can read `name` as the last name in `path`. A drive, a share or a device holds no
/// name. Where the colon follows anything but a letter, it may be taken for that of a drive or not.
pub open spec fn can_be_name_on_windows(path: Seq<char>, name: Option<Seq<char>>) -> bool {
    if begins_with_two_slashes(path) {
        name is None || name == last_name(path, true)
    } else if has_colon(path) {
        ||| name == last_name(path.skip(2), true)
        ||| !is_letter(path[0]) && name == last_name(path, true)
    } else {
        name == last_name(path, true)
    }
}

/// Whether some platform can read `name` as the last name in `path`.
pub open spec fn can_be_name(path: Seq<char>, name: Option<Seq<char>>) -> bool {
    name == last_name(path, false) || can_be_name_on_windows(path, name)
}

/// Whether every platform reads `path` as the same names.
pub open spec fn reads_alike(path: Seq<char>) -> bool {
    !path.contains('\\') && !begins_with_two_slashes(path) && !has_colon(path)
}

/// What stands behind the last full stop of `name`, if `name` holds one that is not its first
/// character.
pub open spec fn after_last_dot(name: Seq<char>) -> Option<Seq<char>>
    decreases name.len(),
{
    if name.len() <= 1 {
        None
    } else if name.last() == '.' {
        Some(Seq::empty())
    } else {
        match after_last_dot(name.drop_last()) {
            Some(e) => Some(e.push(name.last())),
            None => None,
        }
    }
}

/// The extension of the last name in a path.
pub open spec fn extension_of(name: Option<Seq<char>>) -> Option<Seq<char>> {
    match name {
        Some(n) => after_last_dot(n),
        None => None,
    }
}

/// Whether some platform can read `ext` as the extension of the last name in `path`.
pub open spec fn can_be_extension(path: Seq<char>, ext: Option<Seq<char>>) -> bool {
    exists|name: Option<Seq<char>>| #[trigger] can_be_name(path, name) && ext == extension_of(name)
}

/// `Path::extension` gives what stands behind the last full stop of the last name in a path. Which
/// names a path has is for the platform to say, so the claim is that the path is read as on Windows
/// or as elsewhere. Of a path that Windows may take word by word only that the extension stands in it
/// and holds no full stop.
#[verifier::external_body]
pub(crate) fn path_extension(path: &str) -> (r: Option<String>)
    ensures
        !may_be_verbatim(path@) ==> can_be_extension(path@, text_if_any(r)),
        r matches Some(e) ==> occurs_in(e@, path@) && !e@.contains('.'),
{
    std::path::Path::new(path).extension().and_then(|e| e.to_str()).map(|e| e.to_string())
}

/// `Path::file_name` gives the last name in a path. Which names a path has is for the platform to
/// say, so the claim is that the path is read as on Windows or as elsewhere. Of a path that Windows
/// may take word by word only that the name stands in it.
#[verifier::external_body]
pub(crate) fn path_file_name(path: &str) -> (r: Option<String>)
    ensures
        !may_be_verbatim(path@) ==> can_be_name(path@, text_if_any(r)),
        r matches Some(name) ==> name@.len() > 0 && occurs_in(name@, path@),
{
    std::path::Path::new(path).file_name().and_then(|e| e.to_str()).map(|e| e.to_string())
}

/// Whether `c` may stand in the name of a downloaded file.
pub open spec fn is_safe(c: char) -> bool {
    ||| 'a' <= c <= 'z'
    ||| 'A' <= c <= 'Z'
    ||| '0' <= c <= '9'
    ||| c == '-'
    ||| c == '_'
}

/// `c`, or a hyphen if `c` may not stand in the name of a downloaded file.
pub open spec fn safe_char(c: char) -> char {
    if is_safe(c) {
        c
    } else {
        '-'
    }
}

/// `id` as it stands in the name of a downloaded file: made of safe characters, first without
/// hyphens, then without underscores at the ends.
pub open spec fn safe_id(id: Seq<char>) -> Seq<char> {
    strip(strip(id.map_values(|c: char| safe_char(c)), CharSet::Only('-')), CharSet::Only('_'))
}

/// The name, without number and extension, under which the image `id` is downloaded.
pub open spec fn download_stem(id: Seq<char>) -> Seq<char> {
    if safe_id(id).len() == 0 {
        "image-lab"@
    } else {
        "image-lab-"@ + safe_id(id)
    }
}

/// The name to try for the download of the image `id` once `taken` names were found to be taken.
pub open spec fn download_name(id: Seq<char>, ext: Seq<char>, taken: nat) -> Seq<char> {
    let numbered = if taken == 0 {
        download_stem(id)
    } else {
        download_stem(id) + "-"@ + decimal(taken)
    };
    numbered + "."@ + ext
}

/// Replaces the characters of `id` that may not stand in the name of a downloaded file.
fn safe_chars(id: &str) -> (r: String)
    ensures
        r@ == id@.map_values(|c: char| safe_char(c)),
{
    let chars = chars_of(id);
    let mut r = String::new();
    let mut i: usize = 0;
    while i < chars.len()
        invariant
            i <= chars@.len(),
            chars@ == id@,
            r@ == id@.take(i as int).map_values(|c: char| safe_char(c)),
        decreases chars@.len() - i,
    {
        let c: char = chars[i];
        let safe: bool = ('a' <= c && c <= 'z') || ('A' <= c && c <= 'Z') || ('0' <= c && c <= '9')
            || c == '-' || c == '_';
        r.push(if safe { c } else { '-' });
        assert(id@.take(i + 1).map_values(|c: char| safe_char(c)) =~= id@.take(i as int).map_values(
            |c: char| safe_char(c),
        ).push(safe_char(c)));
        i = i + 1;
    }
    assert(id@.take(i as int) =~= id@);
    r
}

/// The place in `dir` to try for the download of the image `id` once `taken` places were found to be
/// taken.
pub open spec fn place_tried(dir: PathView, id: Seq<char>, ext: Seq<char>, taken: nat) -> PathView {
    dir.join(download_name(id, ext, taken))
}

/// The place in `dir` to try for the download of the image `history_id` once `taken` places were
/// found to be taken.
pub fn download_place(dir: &FilePath, history_id: &str, ext: &str, taken: u64) -> (r: FilePath)
    ensures
        r@ == place_tried(dir@, history_id@, ext@, taken as nat),
{
    let safe = safe_chars(history_id);
    let bare = strip_of(strip_of(safe.as_str(), CharSet::Only('-')), CharSet::Only('_'));
    let mut name = if bare.is_empty() {
        "image-lab".to_string()
    } else {
        joined("image-lab-", bare)
    };
    if taken > 0 {
        name.append("-");
        name.append(decimal_text(taken).as_str());
    }
    name.append(".");
    name.append(ext);
    dir.join(name.as_str())
}

/// Says how many places are taken once the place after `taken` taken ones was looked at, if the
/// search goes on. It ends where nothing is there.
pub fn next_download(taken: u64, is_there: bool) -> (r: Option<u64>)
    requires
        taken < u64::MAX,
    ensures
        r == (if is_there {
            Some((taken + 1) as u64)
        } else {
            None
        }),
{
    if is_there {
        Some(taken + 1)
    } else {
        None
    }
}

/// Whether `look`, asked whether something is at `place`, can answer `answer`.
pub open spec fn can_answer<F: Fn(&FilePath) -> bool>(look: F, place: PathView, answer: bool) -> bool {
    exists|p: &FilePath| p@ == place && #[trigger] call_ensures(look, (p,), answer)
}

/// Whether the place after `k` others is the first of the places tried where, as `look` says,
/// nothing is.
pub open spec fn is_first_free<F: Fn(&FilePath) -> bool>(
    look: F,
    dir: PathView,
    id: Seq<char>,
    ext: Seq<char>,
    k: nat,
) -> bool {
    &&& can_answer(look, place_tried(dir, id, ext, k), false)
    &&& forall|j: nat| j < k ==> can_answer(look, #[trigger] place_tried(dir, id, ext, j), true)
}

/// Whether `r` is the first of the places tried where, as `look` says, nothing is; or there is no
/// such place, as far as 64 bits count.
pub open spec fn is_place_found<F: Fn(&FilePath) -> bool>(
    look: F,
    dir: PathView,
    id: Seq<char>,
    ext: Seq<char>,
    r: Option<FilePath>,
) -> bool {
    match r {
        Some(place) => exists|k: nat|
            #[trigger] is_first_free(look, dir, id, ext, k) && place@ == place_tried(dir, id, ext, k),
        None => forall|j: nat|
            j < u64::MAX ==> can_answer(look, #[trigger] place_tried(dir, id, ext, j), true),
    }
}

/// Finds a place in `dir` for the download of the image `history_id` where nothing is yet. `look`
/// tells whether something is at a place.
pub fn unique_download_path<F: Fn(&FilePath) -> bool>(dir: &FilePath, history_id: &str, ext: &str, look: F) -> (r:
    Option<FilePath>)
    requires
        forall|p: &FilePath| #[trigger] call_requires(look, (p,)),
    ensures
        is_place_found(look, dir@, history_id@, ext@, r),
{
    let mut taken: u64 = 0;
    while taken < u64::MAX
        invariant
            forall|p: &FilePath| #[trigger] call_requires(look, (p,)),
            forall|j: nat|
                j < taken ==> can_answer(look, #[trigger] place_tried(dir@, history_id@, ext@, j), true),
        decreases u64::MAX - taken,
    {
        let place = download_place(dir, history_id, ext, taken);
        let is_there: bool = look(&place);
        assert(call_ensures(look, (&place,), is_there));
        match next_download(taken, is_there) {
            Some(more) => {
                taken = more;
            },
            None => {
                assert(is_first_free(look, dir@, history_id@, ext@, taken as nat));
                return Some(place);
            },
        }
    }
    None
}

}
