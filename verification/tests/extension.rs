use wallrand::extension::is_extension_relevant;

#[test]
fn png_is_relevant() {
    assert!(is_extension_relevant("photo.png"));
}

#[test]
fn jpg_is_relevant() {
    assert!(is_extension_relevant("photo.jpg"));
}

#[test]
fn jpeg_is_relevant() {
    assert!(is_extension_relevant("photo.jpeg"));
}

#[test]
fn gif_is_relevant() {
    assert!(is_extension_relevant("photo.gif"));
}

#[test]
fn txt_is_not_relevant() {
    assert!(!is_extension_relevant("notes.txt"));
}

#[test]
fn uppercase_png_is_excluded() {
    assert!(!is_extension_relevant("photo.PNG"));
}

#[test]
fn mixed_case_extension_is_excluded() {
    assert!(!is_extension_relevant("photo.Png"));
}

#[test]
fn name_without_dot_is_excluded() {
    assert!(!is_extension_relevant("README"));
}

#[test]
fn empty_name_is_excluded() {
    assert!(!is_extension_relevant(""));
}

#[test]
fn trailing_dot_is_excluded() {
    assert!(!is_extension_relevant("archive."));
}

#[test]
fn only_the_final_dot_counts() {
    assert!(is_extension_relevant("a.tar.png"));
    assert!(!is_extension_relevant("a.png.txt"));
}

#[test]
fn extension_must_match_exactly() {
    assert!(!is_extension_relevant("photo.pngx"));
    assert!(!is_extension_relevant("photo.pn"));
    assert!(!is_extension_relevant("photo.jp"));
}

#[test]
fn dot_at_the_start_still_gives_an_extension() {
    assert!(is_extension_relevant(".png"));
}
