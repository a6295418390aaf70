//! Document kinds and the values that document commands exchange.

use vstd::prelude::*;

verus! {

/// The kinds of document the editor knows.
#[derive(Clone, Copy, Debug, PartialEq, Eq, Structural)]
pub enum DocumentKind {
    FreeformDiagram,
    FlowDiagram,
}

/// What a file picker offers to show: a label and the extensions under it.
#[derive(Clone, Debug, PartialEq, Eq)]
pub struct FileFilter {
    pub label: String,
    pub extensions: Vec<String>,
}

/// What a [`FileFilter`] holds, as mathematical values.
pub struct FileFilterView {
    pub label: Seq<char>,
    pub extensions: Seq<Seq<char>>,
}

impl View for FileFilter {
    type V = FileFilterView;

    open spec fn view(&self) -> FileFilterView {
        FileFilterView { label: self.label@, extensions: self.extensions.deep_view() }
    }
}

impl DocumentKind {
    /// The tag under which the recently-used list files documents of this
    /// kind.
    pub open spec fn spec_tag(self) -> Seq<char> {
        match self {
            DocumentKind::FreeformDiagram => "freeform-diagram"@,
            DocumentKind::FlowDiagram => "flow-diagram"@,
        }
    }

    /// The filter a file picker shows for this kind.
    pub open spec fn spec_filter(self) -> FileFilterView {
        match self {
            DocumentKind::FreeformDiagram => FileFilterView {
                label: "Excalidraw"@,
                extensions: seq!["excalidraw"@, "json"@],
            },
            DocumentKind::FlowDiagram => FileFilterView {
                label: "Mermaid"@,
                extensions: seq!["mmd"@, "mermaid"@, "md"@, "txt"@],
            },
        }
    }

    /// The file name a save dialog suggests for a new document of this kind.
    pub open spec fn spec_default_file_name(self) -> Seq<char> {
        match self {
            DocumentKind::FreeformDiagram => "drawing.excalidraw"@,
            DocumentKind::FlowDiagram => "diagram.mmd"@,
        }
    }

    pub fn tag(self) -> (tag: &'static str)
        ensures
            tag@ == self.spec_tag(),
    {
        match self {
            DocumentKind::FreeformDiagram => "freeform-diagram",
            DocumentKind::FlowDiagram => "flow-diagram",
        }
    }

    pub fn filter(self) -> (filter: FileFilter)
        ensures
            filter@ == self.spec_filter(),
    {
        let mut extensions: Vec<String> = Vec::new();
        match self {
            DocumentKind::FreeformDiagram => {
                extensions.push("excalidraw".to_owned());
                extensions.push("json".to_owned());
                assert(extensions.deep_view() =~= seq!["excalidraw"@, "json"@]);
                FileFilter { label: "Excalidraw".to_owned(), extensions }
            },
            DocumentKind::FlowDiagram => {
                extensions.push("mmd".to_owned());
                extensions.push("mermaid".to_owned());
                extensions.push("md".to_owned());
                extensions.push("txt".to_owned());
                assert(extensions.deep_view() =~= seq!["mmd"@, "mermaid"@, "md"@, "txt"@]);
                FileFilter { label: "Mermaid".to_owned(), extensions }
            },
        }
    }

    pub fn default_file_name(self) -> (name: &'static str)
        ensures
            name@ == self.spec_default_file_name(),
    {
        match self {
            DocumentKind::FreeformDiagram => "drawing.excalidraw",
            DocumentKind::FlowDiagram => "diagram.mmd",
        }
    }
}

/// Different kinds file their documents under different tags, so a path
/// opened as one kind never displaces the same path opened as another.
pub proof fn tags_tell_kinds_apart(a: DocumentKind, b: DocumentKind)
    ensures
        a.spec_tag() == b.spec_tag() <==> a == b,
{
    reveal_strlit("freeform-diagram");
    reveal_strlit("flow-diagram");
    assert("freeform-diagram"@.len() != "flow-diagram"@.len());
}

/// A document that was opened: where it is, what to call it, what it holds.
#[derive(Clone, Debug, PartialEq, Eq)]
pub struct OpenResult {
    pub path: String,
    pub name: Option<String>,
    pub contents: String,
}

/// What an [`OpenResult`] holds, as mathematical values.
pub struct OpenResultView {
    pub path: Seq<char>,
    pub name: Option<Seq<char>>,
    pub contents: Seq<char>,
}

impl View for OpenResult {
    type V = OpenResultView;

    open spec fn view(&self) -> OpenResultView {
        OpenResultView {
            path: self.path@,
            name: self.name.deep_view(),
            contents: self.contents@,
        }
    }
}

/// A request to save `contents`; without a `path` the user is asked for one.
#[derive(Clone, Debug, PartialEq, Eq)]
pub struct SaveRequest {
    pub path: Option<String>,
    pub name: Option<String>,
    pub contents: String,
}

/// What a [`SaveRequest`] holds, as mathematical values.
pub struct SaveRequestView {
    pub path: Option<Seq<char>>,
    pub name: Option<Seq<char>>,
    pub contents: Seq<char>,
}

impl View for SaveRequest {
    type V = SaveRequestView;

    open spec fn view(&self) -> SaveRequestView {
        SaveRequestView {
            path: self.path.deep_view(),
            name: self.name.deep_view(),
            contents: self.contents@,
        }
    }
}

/// Where a document was saved.
#[derive(Clone, Debug, PartialEq, Eq)]
pub struct SaveResult {
    pub path: String,
}

/// What a [`SaveResult`] holds, as mathematical values.
pub struct SaveResultView {
    pub path: Seq<char>,
}

impl View for SaveResult {
    type V = SaveResultView;

    open spec fn view(&self) -> SaveResultView {
        SaveResultView { path: self.path@ }
    }
}

} // verus!
