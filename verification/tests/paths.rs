use image_lab::ids::new_id;
use image_lab::paths::{download_place, extension_for, next_download, unique_download_path, BaseDir, FilePath};

fn name(id: &str, ext: &str, taken: u64) -> String {
    let dir = FilePath::new(BaseDir::Downloads);
    let path = download_place(&dir, id, ext, taken);
    assert_eq!(path.base, BaseDir::Downloads);
    assert_eq!(path.names.len(), 1);
    path.names[0].clone()
}

#[test]
fn extensions_by_name_and_media_type() {
    assert_eq!(extension_for("a.JPG", ""), "jpg");
    assert_eq!(extension_for("a.jpeg", "image/png"), "jpg");
    assert_eq!(extension_for("a", "image/jpeg"), "jpg");
    assert_eq!(extension_for("a.webp", "image/jpeg"), "jpg");
    assert_eq!(extension_for("a.WebP", ""), "webp");
    assert_eq!(extension_for("a", "image/webp"), "webp");
    assert_eq!(extension_for("a.png", "image/png"), "png");
    assert_eq!(extension_for("jpg", "IMAGE/JPEG"), "png");
    assert_eq!(extension_for("", ""), "png");
}

#[test]
fn joining_appends_a_name() {
    let p = FilePath::new(BaseDir::AppData).join("results").join("a.png");
    assert_eq!(p, FilePath { base: BaseDir::AppData, names: vec!["results".to_string(), "a.png".to_string()] });
}

#[test]
fn the_first_name_has_no_number() {
    assert_eq!(name("img_0123", "png", 0), "image-lab-img_0123.png");
    assert_eq!(name("img_0123", "png", 1), "image-lab-img_0123-1.png");
    assert_eq!(name("img_0123", "webp", 12), "image-lab-img_0123-12.webp");
}

#[test]
fn names_hold_safe_characters_only() {
    assert_eq!(name("../a b/中c", "png", 0), "image-lab-a-b--c.png");
    assert_eq!(name("--_x_--", "png", 0), "image-lab-x.png");
    assert_eq!(name("_-x-_", "png", 0), "image-lab--x-.png");
    assert_eq!(name("__", "png", 0), "image-lab.png");
    assert_eq!(name("", "jpg", 3), "image-lab-3.jpg");
    assert_eq!(name("中文", "jpg", 0), "image-lab.jpg");
}

#[test]
fn the_names_that_are_tried_differ() {
    let mut seen: Vec<String> = Vec::new();
    for taken in 0..200 {
        let n = name("a-1", "png", taken);
        assert!(!seen.contains(&n));
        seen.push(n);
    }
}

#[test]
fn new_ids_are_random_uuids() {
    let a = new_id("img_");
    let b = new_id("img_");
    assert_ne!(a, b);
    assert_eq!(a.len(), 36);
    let hex = a.strip_prefix("img_").unwrap();
    assert!(hex.chars().all(|c| c.is_ascii_digit() || ('a'..='f').contains(&c)));
    assert_eq!(hex.as_bytes()[12], b'4');
    assert!(matches!(hex.as_bytes()[16], b'8' | b'9' | b'a' | b'b'));
    assert_eq!(uuid::Uuid::parse_str(hex).unwrap().get_version_num(), 4);
}

#[test]
fn the_search_goes_on_while_something_is_there() {
    assert_eq!(next_download(0, false), None);
    assert_eq!(next_download(0, true), Some(1));
    assert_eq!(next_download(41, true), Some(42));
    assert_eq!(next_download(41, false), None);
}

#[test]
fn a_download_takes_the_first_free_place() {
    let dir = FilePath::new(BaseDir::Downloads);
    let mut taken: Vec<FilePath> = Vec::new();
    let first = unique_download_path(&dir, "a", "png", |p| taken.contains(p)).unwrap();
    assert_eq!(first, dir.join("image-lab-a.png"));
    taken.push(first);
    taken.push(dir.join("image-lab-a-2.png"));
    let second = unique_download_path(&dir, "a", "png", |p| taken.contains(p)).unwrap();
    assert_eq!(second, dir.join("image-lab-a-1.png"));
    taken.push(second);
    let third = unique_download_path(&dir, "a", "png", |p| taken.contains(p)).unwrap();
    assert_eq!(third, dir.join("image-lab-a-3.png"));
}
