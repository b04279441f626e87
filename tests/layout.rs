use font_provision::{base_dir, font_path, join_path, partial_zip_path, zip_path};

#[test]
fn join_adds_one_separator() {
    assert_eq!(join_path("/home/ada", ".fonts"), "/home/ada/.fonts");
    assert_eq!(join_path("/home/ada/", ".fonts"), "/home/ada/.fonts");
    assert_eq!(join_path("", ".fonts"), ".fonts");
}

#[test]
fn canonical_locations() {
    let base = base_dir("/home/ada");
    assert_eq!(base, "/home/ada/.fonts");
    assert_eq!(font_path(&base), "/home/ada/.fonts/NotoSans-Regular.ttf");
    assert_eq!(zip_path(&base), "/home/ada/.fonts/NotoSans-unhinted.zip");
    assert_eq!(partial_zip_path(&base), "/home/ada/.fonts/NotoSans-unhinted.zip.part");
}
