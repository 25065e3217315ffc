use zodiacal_web::indexes::{is_index_extension, INDEX_EXTENSION};

#[test]
fn only_zdcl_files_are_indexes() {
    assert!(is_index_extension("zdcl"));
    assert_eq!(INDEX_EXTENSION, "zdcl");
    assert!(!is_index_extension("ZDCL"));
    assert!(!is_index_extension("zdc"));
    assert!(!is_index_extension(""));
    assert!(!is_index_extension("fits"));
}
