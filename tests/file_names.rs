use rusty_csv_viewer::table::reader::delimiter_for_file;

#[test]
fn delimiter_by_extension() {
    assert_eq!(delimiter_for_file("data.csv"), Some(','));
    assert_eq!(delimiter_for_file("data.tsv"), Some('\t'));
    assert_eq!(delimiter_for_file("notes.txt"), Some('\t'));
    assert_eq!(delimiter_for_file("image.png"), None);
    assert_eq!(delimiter_for_file("sv"), None);
    assert_eq!(delimiter_for_file("csv"), Some(','));
}
