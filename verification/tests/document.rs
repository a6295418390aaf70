use diagram_shell::document::{DocumentKind, FileFilter};

fn words(list: &[&str]) -> Vec<String> {
    list.iter().map(|word| word.to_string()).collect()
}

#[test]
fn each_kind_has_its_tag() {
    assert_eq!(DocumentKind::FreeformDiagram.tag(), "freeform-diagram");
    assert_eq!(DocumentKind::FlowDiagram.tag(), "flow-diagram");
    assert_ne!(DocumentKind::FreeformDiagram.tag(), DocumentKind::FlowDiagram.tag());
}

#[test]
fn each_kind_has_its_filter() {
    assert_eq!(
        DocumentKind::FreeformDiagram.filter(),
        FileFilter { label: "Excalidraw".to_string(), extensions: words(&["excalidraw", "json"]) }
    );
    assert_eq!(
        DocumentKind::FlowDiagram.filter(),
        FileFilter { label: "Mermaid".to_string(), extensions: words(&["mmd", "mermaid", "md", "txt"]) }
    );
}

#[test]
fn each_kind_has_its_default_file_name() {
    assert_eq!(DocumentKind::FreeformDiagram.default_file_name(), "drawing.excalidraw");
    assert_eq!(DocumentKind::FlowDiagram.default_file_name(), "diagram.mmd");
}
