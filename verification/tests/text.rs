use imgtool::text::{chars_contain, chars_equal, chars_match, chars_of, string_of_range, to_ascii_lowercase, trim_bounds};

#[test]
fn ascii_lowercase_leaves_other_letters() {
    assert_eq!(to_ascii_lowercase("IMG_01.JPG"), "img_01.jpg");
    assert_eq!(to_ascii_lowercase("ÄÖ.Png"), "ÄÖ.png");
    assert_eq!(to_ascii_lowercase(""), "");
}

#[test]
fn chars_and_ranges() {
    let v = chars_of("  héllo ");
    assert_eq!(v.len(), 8);
    assert_eq!(trim_bounds(&v), (2, 7));
    assert_eq!(string_of_range(&v, 2, 7), "héllo");
    assert!(chars_match(&chars_of("gif"), "gif"));
    assert!(!chars_match(&chars_of("gif"), "gifs"));
    assert!(chars_equal(&chars_of("ab"), &chars_of("ab")));
    assert!(!chars_equal(&chars_of("ab"), &chars_of("ba")));
    assert!(chars_contain(&chars_of("no exif here"), "exif"));
    assert!(chars_contain(&chars_of("abc"), ""));
    assert!(!chars_contain(&chars_of("ab"), "abc"));
    assert_eq!(trim_bounds(&chars_of("   ")).0, trim_bounds(&chars_of("   ")).1);
}
