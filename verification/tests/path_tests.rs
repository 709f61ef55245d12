use dirtidy::strpath::extension_of;
use dirtidy::strpath::file_name_of;
use dirtidy::strpath::join_path;
use dirtidy::strpath::parent_of;
use dirtidy::strpath::str_eq;
use dirtidy::strpath::str_eq_ignore_case;

#[test]
fn test_join_path() {
    assert_eq!(join_path("/base", "images"), "/base/images");
    assert_eq!(join_path("/base/", "images"), "/base/images");
    assert_eq!(join_path("", "images"), "images");
    assert_eq!(join_path("/", "images"), "/images");
}

#[test]
fn test_file_name_of() {
    assert_eq!(file_name_of("/base/photo.png"), Some("photo.png".to_string()));
    assert_eq!(file_name_of("photo.png"), Some("photo.png".to_string()));
    assert_eq!(file_name_of("/base/"), None);
    assert_eq!(file_name_of("/base/.."), None);
    assert_eq!(file_name_of("/base/."), None);
}

#[test]
fn test_parent_of() {
    assert_eq!(parent_of("/base/photo.png"), Some("/base".to_string()));
    assert_eq!(parent_of("/photo.png"), Some("/".to_string()));
    assert_eq!(parent_of("photo.png"), None);
}

#[test]
fn test_extension_of() {
    assert_eq!(extension_of("/base/photo.png"), Some("png".to_string()));
    assert_eq!(extension_of("/base/archive.tar.gz"), Some("gz".to_string()));
    assert_eq!(extension_of("/base/.hidden"), None);
    assert_eq!(extension_of("/base/README"), None);
}

#[test]
fn test_str_eq() {
    assert!(str_eq("abc", "abc"));
    assert!(!str_eq("abc", "abd"));
    assert!(!str_eq("abc", "ab"));
    assert!(str_eq("", ""));
}

#[test]
fn test_str_eq_ignore_case() {
    assert!(str_eq_ignore_case("PDF", "pdf"));
    assert!(str_eq_ignore_case("Mp3", "mP3"));
    assert!(!str_eq_ignore_case("pdf", "png"));
}
