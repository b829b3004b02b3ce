//! The names of files, and addresses.

use crate::http::bare_url;
use crate::laws::text::{
    strip_end_part, stripping_leaves_the_middle, decimal_is_injective, decimal_has_digits,
};
use crate::paths::{
    can_answer, can_be_name, download_name, download_stem, image_extension, is_first_free, is_place_found, is_safe,
    last_name, last_segment, place_tried, reads_alike, safe_char, FilePath, PathView,
};
use crate::text::{ascii_lowered, decimal, strip, trimmed, CharSet};
use vstd::prelude::*;

verus! {

/// An image gets one of three extensions, whatever it is called.
pub proof fn extensions_are_known(file_name: Seq<char>, mime: Seq<char>)
    ensures
        image_extension(file_name, mime) == "jpg"@ || image_extension(file_name, mime) == "webp"@
            || image_extension(file_name, mime) == "png"@,
{
}

/// The capitals of ASCII in the name of an image do not matter for its extension.
pub proof fn extensions_ignore_case(a: Seq<char>, b: Seq<char>, mime: Seq<char>)
    requires
        ascii_lowered(a) == ascii_lowered(b),
    ensures
        image_extension(a, mime) == image_extension(b, mime),
{
}

/// The platforms read a path alike that holds no backslash.
proof fn slashes_are_alike(path: Seq<char>)
    requires
        !path.contains('\\'),
    ensures
        last_segment(path, true) == last_segment(path, false),
        last_name(path, true) == last_name(path, false),
    decreases path.len(),
{
    if path.len() > 0 {
        let most = path.drop_last();
        assert(path.last() == path[path.len() - 1]);
        if most.contains('\\') {
            let i = choose|i: int| 0 <= i < most.len() && most[i] == '\\';
            assert(path[i] == '\\');
        }
        slashes_are_alike(most);
    }
}

/// Platforms agree on the last name in a path that they read alike, and so on its extension.
pub proof fn plain_paths_have_one_name(path: Seq<char>, name: Option<Seq<char>>)
    requires
        reads_alike(path),
        can_be_name(path, name),
    ensures
        name == last_name(path, false),
{
    slashes_are_alike(path);
}

/// The address of a service does not end with a slash, so the path that is appended brings the only
/// one.
pub proof fn addresses_do_not_end_with_a_slash(base_url: Seq<char>)
    ensures
        bare_url(base_url).len() > 0 ==> bare_url(base_url).last() != '/',
{
    strip_end_part(trimmed(base_url), CharSet::Only('/'));
}

/// The name of a download is made of letters, digits, hyphens and underscores up to its extension,
/// whatever the id of the item holds.
pub proof fn download_names_are_safe(id: Seq<char>, ext: Seq<char>, taken: nat)
    ensures
        ({
            let n = download_name(id, ext, taken);
            let stem = n.len() - ext.len() - 1;
            &&& stem > 0
            &&& n[stem] == '.'
            &&& n.skip(stem + 1) == ext
            &&& forall|i: int| 0 <= i < stem ==> is_safe(#[trigger] n[i])
        }),
{
    let n = download_name(id, ext, taken);
    let stem = n.len() - ext.len() - 1;
    reveal_strlit(".");
    reveal_strlit("-");
    download_stem_is_safe(id);
    decimal_has_digits(taken);
    assert(n.skip(stem + 1) =~= ext);
    assert forall|i: int| 0 <= i < stem implies is_safe(#[trigger] n[i]) by {
        let s = download_stem(id);
        if i < s.len() {
            assert(n[i] == s[i]);
        } else if i == s.len() {
            assert(n[i] == '-');
        } else {
            assert(n[i] == decimal(taken)[i - s.len() - 1]);
        }
    }
}

proof fn download_stem_is_safe(id: Seq<char>)
    ensures
        download_stem(id).len() >= 9,
        forall|i: int| 0 <= i < download_stem(id).len() ==> is_safe(#[trigger] download_stem(id)[i]),
{
    reveal_strlit("image-lab");
    reveal_strlit("image-lab-");
    let a = id.map_values(|c: char| safe_char(c));
    let b = strip(a, CharSet::Only('-'));
    let c = strip(b, CharSet::Only('_'));
    stripping_leaves_the_middle(a, CharSet::Only('-'));
    stripping_leaves_the_middle(b, CharSet::Only('_'));
    let (i, j) = choose|i: int, j: int| 0 <= i <= j <= a.len() && #[trigger] a.subrange(i, j) == b;
    let (k, l) = choose|k: int, l: int| 0 <= k <= l <= b.len() && #[trigger] b.subrange(k, l) == c;
    assert forall|x: int| 0 <= x < c.len() implies is_safe(#[trigger] c[x]) by {
        assert(c[x] == b[k + x]);
        assert(b[k + x] == a[i + k + x]);
    }
    let s = download_stem(id);
    assert forall|x: int| 0 <= x < s.len() implies is_safe(#[trigger] s[x]) by {
        if c.len() > 0 {
            if x < 10 {
                assert(s[x] == "image-lab-"@[x]);
            } else {
                assert(s[x] == c[x - 10]);
            }
        } else {
            assert(s[x] == "image-lab"@[x]);
        }
    }
}

/// The names that are tried for a download differ from each other.
pub proof fn download_names_are_distinct(id: Seq<char>, ext: Seq<char>, m: nat, n: nat)
    requires
        download_name(id, ext, m) == download_name(id, ext, n),
    ensures
        m == n,
{
    reveal_strlit(".");
    reveal_strlit("-");
    let s = download_stem(id);
    let a = download_name(id, ext, m);
    let b = download_name(id, ext, n);
    decimal_has_digits(m);
    decimal_has_digits(n);
    if m > 0 {
        assert(a.len() == s.len() + 1 + decimal(m).len() + 1 + ext.len());
        assert(a.subrange(s.len() as int + 1, a.len() - ext.len() - 1) =~= decimal(m));
    }
    if n > 0 {
        assert(b.len() == s.len() + 1 + decimal(n).len() + 1 + ext.len());
        assert(b.subrange(s.len() as int + 1, b.len() - ext.len() - 1) =~= decimal(n));
    }
    if m > 0 && n > 0 {
        decimal_is_injective(m, n);
    }
}

/// The places that are tried for a download differ from each other.
pub proof fn download_places_are_distinct(dir: PathView, id: Seq<char>, ext: Seq<char>, m: nat, n: nat)
    requires
        place_tried(dir, id, ext, m) == place_tried(dir, id, ext, n),
    ensures
        m == n,
{
    assert(place_tried(dir, id, ext, m).names.last() == download_name(id, ext, m));
    assert(place_tried(dir, id, ext, n).names.last() == download_name(id, ext, n));
    download_names_are_distinct(id, ext, m, n);
}

/// A set that holds the first `n` places tried for a download holds at least `n` places.
proof fn taken_places_are_many(taken: Set<PathView>, dir: PathView, id: Seq<char>, ext: Seq<char>, n: nat)
    requires
        taken.finite(),
        forall|k: nat| k < n ==> taken.contains(#[trigger] place_tried(dir, id, ext, k)),
    ensures
        taken.len() >= n,
    decreases n,
{
    if n > 0 {
        let last = place_tried(dir, id, ext, (n - 1) as nat);
        let rest = taken.remove(last);
        assert forall|k: nat| k < n - 1 implies rest.contains(#[trigger] place_tried(dir, id, ext, k)) by {
            if place_tried(dir, id, ext, k) == last {
                download_places_are_distinct(dir, id, ext, k, (n - 1) as nat);
            }
        }
        taken_places_are_many(rest, dir, id, ext, (n - 1) as nat);
    }
}

/// A download always finds a place: among one more places than are taken, one is free.
pub proof fn downloads_find_a_place(taken: Set<PathView>, dir: PathView, id: Seq<char>, ext: Seq<char>)
    requires
        taken.finite(),
    ensures
        exists|k: nat| k <= taken.len() && !taken.contains(#[trigger] place_tried(dir, id, ext, k)),
{
    if forall|k: nat| k <= taken.len() ==> taken.contains(#[trigger] place_tried(dir, id, ext, k)) {
        taken_places_are_many(taken, dir, id, ext, taken.len() + 1);
    }
}

/// Whether `look` answers by what is in `taken`.
pub open spec fn answers_by<F: Fn(&FilePath) -> bool>(look: F, taken: Set<PathView>) -> bool {
    forall|p: &FilePath, b: bool| #[trigger] call_ensures(look, (p,), b) ==> b == taken.contains(p@)
}

/// A download goes to the first place of those tried that is not taken, so to one that is not taken;
/// and it goes nowhere only if 2^64 - 1 places are taken.
pub proof fn downloads_take_the_first_free_place<F: Fn(&FilePath) -> bool>(
    look: F,
    taken: Set<PathView>,
    dir: PathView,
    id: Seq<char>,
    ext: Seq<char>,
    r: Option<FilePath>,
)
    requires
        answers_by(look, taken),
        is_place_found(look, dir, id, ext, r),
    ensures
        r matches Some(place) ==> {
            &&& !taken.contains(place@)
            &&& exists|k: nat|
                place@ == #[trigger] place_tried(dir, id, ext, k) && (forall|j: nat|
                    j < k ==> taken.contains(#[trigger] place_tried(dir, id, ext, j)))
        },
        taken.finite() && taken.len() < u64::MAX ==> r is Some,
{
    match r {
        Some(place) => {
            let k = choose|k: nat|
                #[trigger] is_first_free(look, dir, id, ext, k) && place@ == place_tried(dir, id, ext, k);
            assert(place@ == place_tried(dir, id, ext, k));
        },
        None => {
            if taken.finite() && taken.len() < u64::MAX {
                downloads_find_a_place(taken, dir, id, ext);
                let k = choose|k: nat| k <= taken.len() && !taken.contains(#[trigger] place_tried(dir, id, ext, k));
                assert(can_answer(look, place_tried(dir, id, ext, k), true));
            }
        },
    }
}

/// Once a download was put at its place, the next one of the same image goes to another.
pub proof fn downloads_do_not_replace_each_other<F: Fn(&FilePath) -> bool, G: Fn(&FilePath) -> bool>(
    look: F,
    taken: Set<PathView>,
    dir: PathView,
    id: Seq<char>,
    ext: Seq<char>,
    first: FilePath,
    look_again: G,
    second: FilePath,
)
    requires
        answers_by(look, taken),
        is_place_found(look, dir, id, ext, Some(first)),
        answers_by(look_again, taken.insert(first@)),
        is_place_found(look_again, dir, id, ext, Some(second)),
    ensures
        second@ != first@,
        !taken.contains(second@),
{
    downloads_take_the_first_free_place(look_again, taken.insert(first@), dir, id, ext, Some(second));
}

}
