use diagram_shell::launch::{first_present, launch_path, local_paths, OPEN_FILE_EVENT};

fn urls(texts: &[&str]) -> Vec<String> {
    texts.iter().map(|text| text.to_string()).collect()
}

#[test]
fn the_event_is_called_open_file() {
    assert_eq!(OPEN_FILE_EVENT, "open-file");
}

#[test]
fn a_launch_with_two_file_urls_opens_the_first() {
    assert_eq!(launch_path(&urls(&["file:///x.fd", "file:///y.fd"])), Some("/x.fd".to_string()));
}

#[test]
fn urls_that_are_no_local_files_are_passed_over() {
    assert_eq!(
        launch_path(&urls(&["https://example.com/x.fd", "not a url", "file:///y.fd", "file:///z.fd"])),
        Some("/y.fd".to_string())
    );
}

#[test]
fn a_launch_without_a_local_file_opens_nothing() {
    assert_eq!(launch_path(&urls(&[])), None);
    assert_eq!(launch_path(&urls(&["https://example.com/x.fd"])), None);
    assert_eq!(launch_path(&urls(&["", "x.fd", "file://remote.example/x.fd"])), None);
}

#[test]
fn the_path_is_decoded_from_the_url() {
    assert_eq!(launch_path(&urls(&["file:///home/me/my%20drawing.fd"])), Some("/home/me/my drawing.fd".to_string()));
    assert_eq!(launch_path(&urls(&["file://localhost/x.fd"])), Some("/x.fd".to_string()));
}

#[test]
fn the_path_agrees_with_the_url_crate() {
    let text = "file:///srv/docs/flow.mmd";
    let expected = url::Url::parse(text)
        .ok()
        .and_then(|url| url.to_file_path().ok())
        .map(|path| path.to_string_lossy().to_string());
    assert_eq!(expected, Some("/srv/docs/flow.mmd".to_string()));
    assert_eq!(launch_path(&urls(&[text])), expected);
}

#[test]
fn local_paths_converts_each_url_in_place() {
    assert_eq!(
        local_paths(&urls(&["file:///a", "mailto:me@example.com", "file:///b/c"])),
        vec![Some("/a".to_string()), None, Some("/b/c".to_string())]
    );
    assert_eq!(local_paths(&urls(&[])), Vec::<Option<String>>::new());
}

#[test]
fn first_present_takes_the_earliest() {
    assert_eq!(first_present(vec![None, Some("b".to_string()), Some("c".to_string())]), Some("b".to_string()));
    assert_eq!(first_present(vec![Some("a".to_string()), None]), Some("a".to_string()));
    assert_eq!(first_present(vec![None, None]), None);
    assert_eq!(first_present(Vec::new()), None);
}
