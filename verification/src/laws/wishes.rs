//! What the user asks for: a new image, a download, a reference image to keep.

use crate::download::{can_extend_copy, download_result, Download};
use crate::generate::{generate_image, queue_item, Generation};
use crate::ids::new_id;
use crate::laws::items::{is_first, is_unknown, items_are_found_by_their_id};
use crate::laws::names::{answers_by, downloads_take_the_first_free_place};
use crate::laws::progress::occurring_is_being_held;
use crate::laws::services::{chosen_services_are_in_use, is_in_use};
use crate::laws::text::stripping_leaves_the_middle;
use crate::model::{texts, HistoryItem, ImageInput, ItemView, ProviderConfig, ReferenceImage};
use crate::paths::{
    after_last_dot, download_place, extension_for, last_name, last_segment, reads_alike,
    unique_download_path, BaseDir, FilePath, PathView,
};
use crate::reference::{
    describe_reference, place_reference, record_reference, save_reference_image, ReferenceFile,
};
use crate::store::{AppStore, StoreView};
use crate::submit::can_name_file;
use crate::text::{ascii_lowered, decimal, has_suffix, is_blank, occurs_in, strip, trimmed, CharSet};
use crate::time::{elapsed_seconds, is_now_text, rfc3339_stamp, seconds_elapsed, Stamp};
use vstd::prelude::*;

verus! {

/// Whether `id` is `prefix` and 32 hexadecimal digits behind it.
pub open spec fn is_fresh_id(id: Seq<char>, prefix: Seq<char>) -> bool {
    &&& id.len() == prefix.len() + 32
    &&& forall|i: int| 0 <= i < prefix.len() ==> #[trigger] id[i] == prefix[i]
    &&& forall|i: int|
        prefix.len() <= i < id.len() ==> ('0' <= #[trigger] id[i] <= '9' || 'a' <= id[i] <= 'f')
    &&& id[prefix.len() as int + 12] == '4'
    &&& seq!['8', '9', 'a', 'b'].contains(id[prefix.len() as int + 16])
}

proof fn new_ids_are_fresh(id: Seq<char>, prefix: Seq<char>)
    requires
        crate::ids::is_new_id(id, prefix),
    ensures
        is_fresh_id(id, prefix),
{
    let n = prefix.len() as int;
    assert forall|i: int| 0 <= i < n implies #[trigger] id[i] == prefix[i] by {
        assert(id.take(n)[i] == id[i]);
    }
    assert forall|i: int| n <= i < id.len() implies ('0' <= #[trigger] id[i] <= '9' || 'a' <= id[i] <= 'f') by {
        assert(id.skip(n)[i - n] == id[i]);
        assert(crate::ids::is_hex(id.skip(n)[i - n]));
    }
    assert(id.skip(n)[12] == id[n + 12]);
    assert(id.skip(n)[16] == id[n + 16]);
    let variants = seq!['8', '9', 'a', 'b'];
    assert(variants[0] == '8' && variants[1] == '9' && variants[2] == 'a' && variants[3] == 'b');
}

/// A new identifier begins with its prefix and goes on with 32 hexadecimal digits.
pub proof fn identifiers_begin_with_their_prefix(prefix: &str, r: String)
    requires
        call_ensures(new_id, (prefix,), r),
    ensures
        is_fresh_id(r@, prefix@),
{
    new_ids_are_fresh(r@, prefix@);
}

/// Whether `item` stands for a request of `prompt` that has just been made to `provider`.
pub open spec fn is_request_of(
    item: HistoryItem,
    provider: ProviderConfig,
    prompt: Seq<char>,
    size: Seq<char>,
    reference_paths: Seq<Seq<char>>,
) -> bool {
    &&& item.prompt@ == prompt
    &&& item.size@ == size
    &&& item.provider_name@ == provider.name@
    &&& item.adapter@ == provider.adapter@
    &&& texts(item.reference_paths@) == reference_paths
    &&& item.status@ == "pending"@
    &&& item.task_id is None
    &&& item.stored_path@.len() == 0
    &&& item.error is None
    &&& item.finished_at@.len() == 0
    &&& item.duration_seconds is None
}

/// Whether `after` is `before` with `item` at the front of the history: the older items follow in their
/// order, as far as there are no more than 80 in all.
pub open spec fn is_put_in_front(before: StoreView, after: StoreView, item: ItemView) -> bool {
    &&& after.data.settings == before.data.settings
    &&& after.state_path == before.state_path
    &&& after.data_dir == before.data_dir
    &&& after.data.history.len() == (if before.data.history.len() < 80 {
        before.data.history.len() + 1
    } else {
        80
    })
    &&& after.data.history[0] == item
    &&& forall|i: int|
        1 <= i < after.data.history.len() ==> #[trigger] after.data.history[i] == before.data.history[i - 1]
}

/// A request is put in front of the history under its id and time.
pub proof fn requests_are_put_in_front(
    store: &mut AppStore,
    provider: &ProviderConfig,
    prompt: &str,
    size: String,
    reference_paths: Vec<String>,
    id: String,
    created_at: String,
    r: HistoryItem,
)
    requires
        call_ensures(queue_item, (store, provider, prompt, size, reference_paths, id, created_at), r),
    ensures
        is_request_of(r, *provider, prompt@, size@, texts(reference_paths@)),
        r.id@ == id@,
        r.created_at@ == created_at@,
        is_put_in_front(old(store)@, final(store)@, r@),
{
    items_come_from_views(r);
}

proof fn items_come_from_views(item: HistoryItem)
    ensures
        item@.task_id is None <==> item.task_id is None,
        item@.error is None <==> item.error is None,
{
}

/// A request is refused, and nothing changes, if its prompt is blank, if there is no service, or if the
/// service in use lacks address, key or model, in this order. Else it is made to the service in use,
/// without white space around the prompt, under a fresh id, now, and put in front of the history.
pub proof fn requests_are_made_to_the_service_in_use(
    store: &mut AppStore,
    prompt: &str,
    size: String,
    reference_paths: Vec<String>,
    r: Result<Generation, String>,
)
    requires
        call_ensures(generate_image, (store, prompt, size, reference_paths), r),
    ensures
        r is Err ==> final(store)@ == old(store)@,
        is_blank(prompt@) ==> (r matches Err(e) && e@ == "提示词为空"@),
        !is_blank(prompt@) && old(store)@.data.settings.providers.len() == 0 ==> (r matches Err(e) && e@
            == "未配置 Provider"@),
        forall|i: int|
            !is_blank(prompt@) && #[trigger] is_in_use(old(store)@.data.settings, i) ==> {
                let p = old(store)@.data.settings.providers[i];
                &&& is_blank(p.base_url) ==> (r matches Err(e) && e@ == "Base URL 为空"@)
                &&& !is_blank(p.base_url) && is_blank(p.api_key) ==> (r matches Err(e) && e@ == "API Key 为空"@)
                &&& !is_blank(p.base_url) && !is_blank(p.api_key) && is_blank(p.model) ==> (r matches Err(e) && e@
                    == "模型名称为空"@)
                &&& !is_blank(p.base_url) && !is_blank(p.api_key) && !is_blank(p.model) ==> (r matches Ok(g)
                    && g.provider@ == p && is_request_of(
                    g.item,
                    g.provider,
                    trimmed(prompt@),
                    size@,
                    texts(reference_paths@),
                ) && is_fresh_id(g.item.id@, "img_"@) && is_now_text(g.item.created_at@) && is_put_in_front(
                    old(store)@,
                    final(store)@,
                    g.item@,
                ))
            },
{
    chosen_services_are_in_use(old(store)@.data.settings);
    if let Ok(g) = r {
        items_come_from_views(g.item);
        let (id, at) = choose|id: Seq<char>, at: Seq<char>|
            crate::ids::is_new_id(id, "img_"@) && is_now_text(at) && #[trigger] crate::generate::is_queued(
                g,
                old(store)@.data.settings,
                prompt@,
                size@,
                texts(reference_paths@),
                id,
                at,
            );
        new_ids_are_fresh(id, "img_"@);
    }
}

/// A download is refused if the item is not there, or not completed, or has no stored image. Else the
/// stored image is copied as it is, to the directory that the platform assigns, or to `downloads` in the
/// application's own if it assigns none.
pub proof fn completed_images_are_copied(store: &AppStore, id: &str, assigned: bool, r: Result<Download, String>)
    requires
        call_ensures(download_result, (store, id, assigned), r),
    ensures
        is_unknown(store@.data.history, id@) ==> (r matches Err(e) && e@ == "历史记录不存在"@),
        forall|k: int|
            #[trigger] is_first(store@.data.history, id@, k) && (store@.data.history[k].status != "completed"@ || is_blank(
                store@.data.history[k].stored_path,
            )) ==> (r matches Err(e) && e@ == "图片尚未生成完成"@),
        forall|k: int|
            #[trigger] is_first(store@.data.history, id@, k) && store@.data.history[k].status == "completed"@ && !is_blank(
                store@.data.history[k].stored_path,
            ) ==> (r matches Ok(d) && d.id@ == id@ && d.source@ == store@.data.history[k].stored_path && can_extend_copy(
                d.source@,
                d.ext@,
            ) && (assigned ==> d.dir@.base == BaseDir::Downloads && d.dir@.names.len() == 0) && (!assigned ==> d.dir@.base
                == store@.data_dir.base && d.dir@.names == store@.data_dir.names.push("downloads"@))),
{
    items_are_found_by_their_id(store@.data.history, id@);
}

/// Whether `path` is the file `name` in the directory `dir`, which is empty or ends with a slash.
pub open spec fn is_file_in(path: Seq<char>, dir: Seq<char>, name: Seq<char>) -> bool {
    &&& path == dir + name
    &&& dir.len() == 0 || dir.last() == '/'
    &&& name.len() > 0
    &&& !name.contains('/')
    &&& name != seq!['.']
    &&& name != seq!['.', '.']
}

proof fn segments_stand_behind_slashes(dir: Seq<char>, name: Seq<char>)
    requires
        dir.len() == 0 || dir.last() == '/',
        !name.contains('/'),
    ensures
        last_segment(dir + name, false) == name,
    decreases name.len(),
{
    let path = dir + name;
    if name.len() == 0 {
        assert(path =~= dir);
    } else {
        let most = name.drop_last();
        assert(path.drop_last() =~= dir + most);
        assert(path.last() == name.last());
        assert(name.contains(name.last())) by {
            assert(name[name.len() - 1] == name.last());
        }
        if most.contains('/') {
            let i = choose|i: int| 0 <= i < most.len() && most[i] == '/';
            assert(name[i] == '/');
        }
        segments_stand_behind_slashes(dir, most);
        assert(most.push(name.last()) =~= name);
    }
}

proof fn files_have_their_name(path: Seq<char>, dir: Seq<char>, name: Seq<char>)
    requires
        is_file_in(path, dir, name),
    ensures
        last_name(path, false) == Some(name),
{
    segments_stand_behind_slashes(dir, name);
    assert(path.last() == name[name.len() - 1]);
    assert(name.contains(path.last()));
}

/// Whether `path` holds neither a backslash nor a colon, and does not begin with two slashes.
pub open spec fn is_plain(path: Seq<char>) -> bool {
    !path.contains('\\') && !path.contains(':') && !(path.len() >= 2 && path[0] == '/' && path[1] == '/')
}

proof fn plain_paths_read_alike(path: Seq<char>)
    requires
        is_plain(path),
    ensures
        reads_alike(path),
{
    if path.len() >= 2 {
        assert(path.contains(path[0]));
        assert(path.contains(path[1]));
    }
}

/// The name of a file in a form, and the extension of a copy, are the default or stand in the path.
pub proof fn names_stand_in_the_path(path: Seq<char>, name: Seq<char>, ext: Seq<char>)
    requires
        can_name_file(path, name),
        can_extend_copy(path, ext),
    ensures
        name == "image.png"@ || (name.len() > 0 && exists|a: Seq<char>, b: Seq<char>| path == #[trigger] (a + name + b)),
        ext == "png"@ || (ext.len() > 0 && !ext.contains('.') && exists|a: Seq<char>, b: Seq<char>|
            path == #[trigger] (a + ext + b)),
{
    occurring_is_being_held(name, path);
    occurring_is_being_held(ext, path);
}

/// A file goes into a form under its own name, if its path is plain.
pub proof fn files_go_by_their_name(path: Seq<char>, dir: Seq<char>, name: Seq<char>, r: Seq<char>)
    requires
        can_name_file(path, r),
        is_plain(path),
        is_file_in(path, dir, name),
    ensures
        r == name,
{
    plain_paths_read_alike(path);
    files_have_their_name(path, dir, name);
}

proof fn extensions_stand_behind_the_last_dot(stem: Seq<char>, ext: Seq<char>)
    requires
        stem.len() > 0,
        !ext.contains('.'),
    ensures
        after_last_dot(stem + seq!['.'] + ext) == Some(ext),
    decreases ext.len(),
{
    let name = stem + seq!['.'] + ext;
    if ext.len() == 0 {
        assert(name.last() == '.');
        assert(ext =~= Seq::empty());
    } else {
        let most = ext.drop_last();
        assert(name.drop_last() =~= stem + seq!['.'] + most);
        assert(name.last() == ext.last());
        assert(ext[ext.len() - 1] == ext.last());
        assert(ext.contains(ext.last()));
        if most.contains('.') {
            let i = choose|i: int| 0 <= i < most.len() && most[i] == '.';
            assert(ext[i] == '.');
        }
        extensions_stand_behind_the_last_dot(stem, most);
        assert(most.push(ext.last()) =~= ext);
    }
}

proof fn names_without_a_dot_have_no_extension(name: Seq<char>)
    requires
        forall|i: int| 1 <= i < name.len() ==> #[trigger] name[i] != '.',
    ensures
        after_last_dot(name) is None,
    decreases name.len(),
{
    if name.len() > 1 {
        assert(name[name.len() - 1] == name.last());
        let most = name.drop_last();
        assert forall|i: int| 1 <= i < most.len() implies #[trigger] most[i] != '.' by {
            assert(name[i] == most[i]);
        }
        names_without_a_dot_have_no_extension(most);
    }
}

/// A copy keeps the extension of the file that it is a copy of, if its path is plain, and gets `png` if
/// that has none.
pub proof fn copies_keep_their_extension(path: Seq<char>, dir: Seq<char>, name: Seq<char>, r: Seq<char>)
    requires
        can_extend_copy(path, r),
        is_plain(path),
        is_file_in(path, dir, name),
    ensures
        forall|stem: Seq<char>, ext: Seq<char>|
            name == #[trigger] (stem + seq!['.'] + ext) && stem.len() > 0 && ext.len() > 0 && !ext.contains('.') ==> r
                == ext,
        forall|stem: Seq<char>| name == #[trigger] (stem + seq!['.']) && stem.len() > 0 ==> r == "png"@,
        (forall|i: int| 1 <= i < name.len() ==> #[trigger] name[i] != '.') ==> r == "png"@,
{
    plain_paths_read_alike(path);
    files_have_their_name(path, dir, name);
    assert forall|stem: Seq<char>, ext: Seq<char>|
        name == #[trigger] (stem + seq!['.'] + ext) && stem.len() > 0 && ext.len() > 0 && !ext.contains('.') implies r
        == ext by {
        extensions_stand_behind_the_last_dot(stem, ext);
    }
    assert forall|stem: Seq<char>| name == #[trigger] (stem + seq!['.']) && stem.len() > 0 implies r == "png"@ by {
        assert(stem + seq!['.'] + Seq::<char>::empty() =~= stem + seq!['.']);
        extensions_stand_behind_the_last_dot(stem, Seq::empty());
    }
    if forall|i: int| 1 <= i < name.len() ==> #[trigger] name[i] != '.' {
        names_without_a_dot_have_no_extension(name);
    }
}

/// Whether `r` is `s` without the characters `c` around it.
pub open spec fn is_without(s: Seq<char>, c: char, r: Seq<char>) -> bool {
    &&& exists|i: int, j: int|
        0 <= i <= j <= s.len() && #[trigger] s.subrange(i, j) == r && (forall|k: int|
            0 <= k < i || j <= k < s.len() ==> #[trigger] s[k] == c)
    &&& r.len() > 0 ==> r[0] != c && r.last() != c
}

proof fn stripping_leaves_without(s: Seq<char>, c: char)
    ensures
        is_without(s, c, strip(s, CharSet::Only(c))),
{
    let set = CharSet::Only(c);
    stripping_leaves_the_middle(s, set);
    let (i, j) = choose|i: int, j: int|
        0 <= i <= j <= s.len() && #[trigger] s.subrange(i, j) == strip(s, set) && (forall|k: int|
            0 <= k < i || j <= k < s.len() ==> set.has(#[trigger] s[k]));
    assert(s.subrange(i, j) == strip(s, set));
    assert forall|k: int| 0 <= k < i || j <= k < s.len() implies #[trigger] s[k] == c by {
        assert(set.has(s[k]));
    }
}

/// Whether `safe` is `id` with a hyphen for all but letters and digits of ASCII, hyphens and
/// underscores, and then without the hyphens around it, and then without the underscores.
pub open spec fn is_safe_form(id: Seq<char>, safe: Seq<char>) -> bool {
    exists|m: Seq<char>, a: Seq<char>|
        m.len() == id.len() && (forall|i: int|
            0 <= i < id.len() ==> #[trigger] m[i] == (if 'a' <= id[i] <= 'z' || 'A' <= id[i] <= 'Z' || '0' <= id[i]
                <= '9' || id[i] == '-' || id[i] == '_' {
                id[i]
            } else {
                '-'
            })) && #[trigger] is_without(m, '-', a) && is_without(a, '_', safe)
}

/// Whether `name` is the name for the download of the image `id` once `taken` names were taken.
pub open spec fn is_download_name(name: Seq<char>, id: Seq<char>, ext: Seq<char>, taken: nat) -> bool {
    exists|safe: Seq<char>| #[trigger]
        is_safe_form(id, safe) && name == "image-lab"@ + (if safe.len() == 0 {
            safe
        } else {
            "-"@ + safe
        }) + (if taken == 0 {
            Seq::empty()
        } else {
            "-"@ + decimal(taken)
        }) + "."@ + ext
}

proof fn download_names_are_made_of_ids(id: Seq<char>, ext: Seq<char>, taken: nat)
    ensures
        is_download_name(crate::paths::download_name(id, ext, taken), id, ext, taken),
{
    reveal_strlit("image-lab");
    reveal_strlit("image-lab-");
    reveal_strlit("-");
    assert("image-lab-"@ =~= "image-lab"@ + "-"@);
    let m = id.map_values(|c: char| crate::paths::safe_char(c));
    let a = strip(m, CharSet::Only('-'));
    let safe = strip(a, CharSet::Only('_'));
    stripping_leaves_without(m, '-');
    stripping_leaves_without(a, '_');
    assert(is_without(m, '-', a));
    assert(is_safe_form(id, safe));
    let middle = if safe.len() == 0 {
        safe
    } else {
        "-"@ + safe
    };
    let end = if taken == 0 {
        Seq::empty()
    } else {
        "-"@ + decimal(taken)
    };
    assert(crate::paths::download_name(id, ext, taken) =~= "image-lab"@ + middle + end + "."@ + ext);
}

/// Downloads are named after the id of their item, with a number if the names before it are taken, and
/// lie in the directory for them.
pub proof fn downloads_are_named_after_their_item(dir: &FilePath, id: &str, ext: &str, taken: u64, r: FilePath)
    requires
        call_ensures(download_place, (dir, id, ext, taken), r),
    ensures
        r@.base == dir@.base,
        r@.names.len() == dir@.names.len() + 1,
        forall|i: int| 0 <= i < dir@.names.len() ==> #[trigger] r@.names[i] == dir@.names[i],
        is_download_name(r@.names.last(), id@, ext@, taken as nat),
        r@ == crate::paths::place_tried(dir@, id@, ext@, taken as nat),
{
    download_names_are_made_of_ids(id@, ext@, taken as nat);
}

/// The place that is found for a download is the first of those tried that is not taken, so one that is
/// not taken; and one is found unless 2^64 - 1 places are taken.
pub proof fn downloads_are_put_where_nothing_is<F: Fn(&FilePath) -> bool>(
    dir: &FilePath,
    id: &str,
    ext: &str,
    look: F,
    taken: Set<PathView>,
    r: Option<FilePath>,
)
    requires
        call_ensures(unique_download_path::<F>, (dir, id, ext, look), r),
        answers_by(look, taken),
    ensures
        taken.finite() && taken.len() < u64::MAX ==> r is Some,
        r matches Some(place) ==> {
            &&& !taken.contains(place@)
            &&& exists|k: nat|
                place@ == #[trigger] crate::paths::place_tried(dir@, id@, ext@, k) && (forall|j: nat|
                    j < k ==> taken.contains(#[trigger] crate::paths::place_tried(dir@, id@, ext@, j)))
        },
        r matches Some(place) ==> exists|k: nat| #[trigger]
            crate::paths::is_first_free(look, dir@, id@, ext@, k) && place@.base == dir@.base && place@.names.len()
                == dir@.names.len() + 1 && is_download_name(place@.names.last(), id@, ext@, k),
{
    downloads_take_the_first_free_place(look, taken, dir@, id@, ext@, r);
    if let Some(place) = r {
        let k = choose|k: nat|
            #[trigger] crate::paths::is_first_free(look, dir@, id@, ext@, k) && place@ == crate::paths::place_tried(
                dir@,
                id@,
                ext@,
                k,
            );
        download_names_are_made_of_ids(id@, ext@, k);
    }
}

/// An image is a `jpg` if its name ends so, or with `jpeg`, or its media type holds that; else a `webp`
/// if either says so; else a `png`. Capitals in the name do not matter.
pub proof fn extensions_go_by_name_and_media_type(file_name: &str, mime: &str, r: &'static str)
    requires
        call_ensures(extension_for, (file_name, mime), r),
    ensures
        ({
            let name = ascii_lowered(file_name@);
            let jpg = has_suffix(name, ".jpg"@) || has_suffix(name, ".jpeg"@) || occurs_in("jpeg"@, mime@);
            let webp = has_suffix(name, ".webp"@) || occurs_in("webp"@, mime@);
            &&& jpg ==> r@ == "jpg"@
            &&& !jpg && webp ==> r@ == "webp"@
            &&& !jpg && !webp ==> r@ == "png"@
        }),
{
}

/// Whether `file` keeps `input` under `id` among the references, with the extension for it.
pub open spec fn is_kept_as(file: ReferenceFile, store: StoreView, input: ImageInput, id: Seq<char>, ext: Seq<char>) -> bool {
    &&& file.id@ == id
    &&& file.input == input
    &&& file.dir@.base == store.data_dir.base
    &&& file.dir@.names == store.data_dir.names.push("references"@)
    &&& file.path@.base == store.data_dir.base
    &&& file.path@.names == store.data_dir.names.push("references"@).push(id + "."@ + ext)
}

/// A reference image is kept as it is, under its id and the extension for it, unless it is empty, which
/// is reported.
pub proof fn references_are_kept(
    store: &AppStore,
    input: ImageInput,
    id: String,
    placed: Result<ReferenceFile, String>,
    saved: Result<ReferenceFile, String>,
    name: &str,
    mime: &str,
    ext: &'static str,
)
    requires
        call_ensures(place_reference, (store, input, id), placed),
        call_ensures(save_reference_image, (store, input), saved),
        call_ensures(extension_for, (name, mime), ext),
        name@ == input.file_name@,
        mime@ == input.mime@,
    ensures
        input.bytes@.len() == 0 ==> (placed matches Err(e) && e@ == "图片为空"@) && (saved matches Err(e) && e@
            == "图片为空"@),
        input.bytes@.len() > 0 ==> (placed matches Ok(f) && is_kept_as(f, store@, input, id@, ext@)) && (
        saved matches Ok(f) && is_kept_as(f, store@, input, f.id@, ext@) && is_fresh_id(f.id@, "ref_"@)),
{
    if let Ok(f) = saved {
        new_ids_are_fresh(f.id@, "ref_"@);
    }
}

/// A reference image is described by its id, its own name, its media type, its size, its path and the
/// time.
pub proof fn references_are_described(
    file: ReferenceFile,
    stored_path: String,
    created_at: String,
    described: ReferenceImage,
    recorded: ReferenceImage,
)
    requires
        call_ensures(describe_reference, (file, stored_path, created_at), described),
        call_ensures(record_reference, (file, stored_path), recorded),
        file.input.bytes@.len() <= u64::MAX,
    ensures
        described.id@ == file.id@ && recorded.id@ == file.id@,
        described.name@ == file.input.file_name@ && recorded.name@ == file.input.file_name@,
        described.mime@ == file.input.mime@ && recorded.mime@ == file.input.mime@,
        described.size_bytes == file.input.bytes@.len() && recorded.size_bytes == file.input.bytes@.len(),
        described.stored_path@ == stored_path@ && recorded.stored_path@ == stored_path@,
        described.created_at@ == created_at@ && is_now_text(recorded.created_at@),
{
}

/// The nanoseconds from the first day to `s`.
pub open spec fn instant(s: Stamp) -> int {
    (s.day * 86_400 + s.second) * 1_000_000_000 + s.nano
}

/// The time between two points in time is that between their instants, in whole seconds, and 0 if the
/// second comes first or one is missing. A leap second that the earlier time of day falls into counts.
pub proof fn time_between_is_counted_in_whole_seconds(start: Option<Stamp>, finish: Option<Stamp>, r: u64)
    requires
        call_ensures(seconds_elapsed, (start, finish), r),
        start matches Some(s) ==> crate::time::is_valid(s),
        finish matches Some(f) ==> crate::time::is_valid(f),
    ensures
        r == seconds_by_instants(start, finish),
{
}

/// The whole seconds from `start` to `finish` by their instants, and 0 if there are none.
pub open spec fn seconds_by_instants(start: Option<Stamp>, finish: Option<Stamp>) -> int {
    match (start, finish) {
        (Some(s), Some(f)) => {
            let leap: int = if f.second > s.second && s.nano >= 1_000_000_000 {
                1_000_000_000
            } else if f.second < s.second && f.nano >= 1_000_000_000 {
                -1_000_000_000
            } else {
                0
            };
            let d = instant(f) - instant(s) + leap;
            if d < 0 {
                0
            } else {
                d / 1_000_000_000
            }
        },
        _ => 0,
    }
}

/// The duration between two written times is that between the points in time that they name, and 0 if
/// one cannot be read.
pub proof fn durations_are_those_of_the_times(a: &str, b: &str, r: u64)
    requires
        call_ensures(elapsed_seconds, (a, b), r),
    ensures
        r == seconds_by_instants(rfc3339_stamp(a@), rfc3339_stamp(b@)),
        r == crate::time::elapsed(a@, b@),
{
}

/// What is written down as the time now has at least 25 characters, ends with the offset of UTC, and can
/// be read unless it begins with the sign of a year.
pub proof fn times_now_can_be_read(t: Seq<char>)
    requires
        is_now_text(t),
    ensures
        t.len() >= 25,
        t.subrange(t.len() - 6, t.len() as int) == seq!['+', '0', '0', ':', '0', '0'],
        t[0] != '+' && t[0] != '-' ==> rfc3339_stamp(t) is Some,
{
    reveal_strlit("+00:00");
    assert("+00:00"@ =~= seq!['+', '0', '0', ':', '0', '0']);
}

}
