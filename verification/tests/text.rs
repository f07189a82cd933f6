use downloader::getter::{file_name, file_path};
use downloader::text::{
    center_string, chars_of, contains_str, decimal_string, find, fixed1_string, less_than,
    matches_at, push_decimal, push_spaces, right_align_string, same_text, string_of,
};
use downloader::tui::app::widgets::files::utils::duration_to_human_readable;

#[test]
fn decimal_numerals() {
    assert_eq!(decimal_string(0), "0");
    assert_eq!(decimal_string(7), "7");
    assert_eq!(decimal_string(10), "10");
    assert_eq!(decimal_string(1234567890), "1234567890");
    assert_eq!(
        decimal_string(u128::MAX),
        "340282366920938463463374607431768211455"
    );
    let mut out = String::from("n=");
    push_decimal(&mut out, 405);
    assert_eq!(out, "n=405");
}

#[test]
fn one_decimal_place() {
    assert_eq!(fixed1_string(0), "0.0");
    assert_eq!(fixed1_string(9), "0.9");
    assert_eq!(fixed1_string(123), "12.3");
    assert_eq!(fixed1_string(1000), "100.0");
}

#[test]
fn padding() {
    assert_eq!(right_align_string("1.5", 5), "  1.5");
    assert_eq!(right_align_string("12345", 5), "12345");
    assert_eq!(right_align_string("123456", 5), "123456");
    assert_eq!(center_string("4.2.1", 10), "  4.2.1   ");
    assert_eq!(center_string("stable", 11), "  stable   ");
    assert_eq!(center_string("ab", 4), " ab ");
    assert_eq!(center_string("abcdefghijkl", 10), "abcdefghijkl");
    assert_eq!(center_string("é", 3), " é ");
    let mut out = String::from("x");
    push_spaces(&mut out, 3);
    assert_eq!(out, "x   ");
}

#[test]
fn searching() {
    assert!(contains_str("4.2.1", "4.2"));
    assert!(contains_str("14.2", "4.2"));
    assert!(!contains_str("4.12", "4.2"));
    assert!(contains_str("abc", ""));
    assert!(!contains_str("", "a"));
    let hay = chars_of("a-daily/b-daily/c");
    let needle = chars_of("daily/");
    assert_eq!(find(&hay, &needle, 0), Some(2));
    assert_eq!(find(&hay, &needle, 3), Some(10));
    assert_eq!(find(&hay, &needle, 11), None);
    assert!(matches_at(&hay, &needle, 10));
    assert!(!matches_at(&hay, &needle, 11));
    assert!(!matches_at(&hay, &needle, 15));
    assert_eq!(string_of(&hay, 2, 7), "daily");
}

#[test]
fn ordering_of_words() {
    let lt = |a: &str, b: &str| less_than(&chars_of(a), &chars_of(b));
    assert!(lt("4.2.0", "4.3.0"));
    assert!(!lt("4.3.0", "4.2.0"));
    assert!(!lt("4.2.0", "4.2.0"));
    assert!(lt("4.2", "4.2.0"));
    assert!(!lt("4.2.0", "4.2"));
    assert!(lt("", "a"));
    assert!(!lt("", ""));
    assert!(lt("4.10.0", "4.2.0"));
    for (a, b) in [("abc", "abd"), ("z", "é"), ("a", "ab"), ("b", "ab")] {
        assert_eq!(lt(a, b), a < b);
        assert_eq!(lt(b, a), b < a);
    }
}

#[test]
fn equal_texts() {
    assert!(same_text("stable", "stable"));
    assert!(!same_text("stable", "Stable"));
    assert!(!same_text("stable", "stabl"));
}

#[test]
fn file_name_follows_daily() {
    assert_eq!(
        file_name(
            "https://builder.blender.org/download/daily/blender-4.3.0-beta+main.abc-linux.x86_64-release.tar.xz"
        )
        .as_deref(),
        Some("blender-4.3.0-beta+main.abc-linux.x86_64-release.tar.xz")
    );
    assert_eq!(
        file_name("https://builder.blender.org/download/daily/archive/blender-4.2.tar.xz")
            .as_deref(),
        Some("archive/blender-4.2.tar.xz")
    );
    assert_eq!(file_name("a/daily/b/daily/c").as_deref(), Some("b/"));
    assert_eq!(file_name("x/daily/").as_deref(), Some(""));
    assert_eq!(file_name("https://example.org/blender.tar.xz"), None);
    assert_eq!(file_name(""), None);
}

#[test]
fn ages_in_words() {
    assert_eq!(duration_to_human_readable(0), "just now");
    assert_eq!(duration_to_human_readable(59), "just now");
    assert_eq!(duration_to_human_readable(60), "1 minute ago");
    assert_eq!(duration_to_human_readable(119), "1 minute ago");
    assert_eq!(duration_to_human_readable(120), "2 minutes ago");
    assert_eq!(duration_to_human_readable(3599), "59 minutes ago");
    assert_eq!(duration_to_human_readable(3600), "1 hour ago");
    assert_eq!(duration_to_human_readable(86399), "23 hours ago");
    assert_eq!(duration_to_human_readable(86400), "1 day ago");
    assert_eq!(duration_to_human_readable(6 * 86400), "6 days ago");
    assert_eq!(duration_to_human_readable(7 * 86400), "1 week ago");
    assert_eq!(duration_to_human_readable(29 * 86400), "4 weeks ago");
    assert_eq!(duration_to_human_readable(30 * 86400), "1 month ago");
    assert_eq!(duration_to_human_readable(364 * 86400), "12 months ago");
    assert_eq!(duration_to_human_readable(365 * 86400), "1 year ago");
    assert_eq!(duration_to_human_readable(3 * 365 * 86400), "3 years ago");
}

#[test]
fn a_download_is_stored_below_the_root() {
    let link = "https://builder.blender.org/download/daily/blender-4.3.0.tar.xz";
    assert_eq!(file_path("/tmp/builds", link).as_deref(), Some("/tmp/builds/blender-4.3.0.tar.xz"));
    assert_eq!(file_path("/tmp/builds/", link).as_deref(), Some("/tmp/builds/blender-4.3.0.tar.xz"));
    assert_eq!(file_path("", link).as_deref(), Some("blender-4.3.0.tar.xz"));
    assert_eq!(file_path("store", "x/daily//abs").as_deref(), Some("/abs"));
    assert_eq!(file_path("store", "x/daily/").as_deref(), Some("store/"));
    assert_eq!(file_path("store", "https://example.org/blender.tar.xz"), None);
    for (root, link) in [("/a", "daily/b"), ("/a/", "daily/b"), ("", "daily/b"), ("a", "daily//b")] {
        let mut expected = std::path::PathBuf::from(root);
        expected.push(file_name(link).unwrap());
        assert_eq!(file_path(root, link).unwrap(), expected.to_str().unwrap());
    }
}
