use diagram_shell::paths::file_name;

#[test]
fn file_name_is_the_last_component() {
    assert_eq!(file_name("/home/me/drawing.excalidraw"), Some("drawing.excalidraw".to_string()));
    assert_eq!(file_name("tmp/foo.txt"), Some("foo.txt".to_string()));
    assert_eq!(file_name("diagram.mmd"), Some("diagram.mmd".to_string()));
}

#[test]
fn file_name_of_a_directory_path_is_the_directory() {
    assert_eq!(file_name("/usr/bin/"), Some("bin".to_string()));
    assert_eq!(file_name("foo.txt/."), Some("foo.txt".to_string()));
}

#[test]
fn file_name_is_absent_for_roots_and_parents() {
    assert_eq!(file_name("/"), None);
    assert_eq!(file_name(""), None);
    assert_eq!(file_name("foo.txt/.."), None);
    assert_eq!(file_name(".."), None);
}

#[test]
fn file_name_keeps_text_beyond_ascii() {
    assert_eq!(file_name("/d/schéma ü.mmd"), Some("schéma ü.mmd".to_string()));
}
