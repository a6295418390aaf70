//! Document commands as a conversation with the shell.
//!
//! A command never performs an effect itself. [`start`] says what the shell
//! must do first, and [`step`] takes the outcome of that effect and says what
//! comes next, until the command finishes with a reply for the frontend and,
//! on success, a use to record in the recently-used list.

use crate::document::{
    DocumentKind, FileFilter, FileFilterView, OpenResult, OpenResultView, SaveRequest,
    SaveRequestView, SaveResult, SaveResultView,
};
use crate::paths::{file_name, final_component};
use crate::recents::{touched, update_recents, RecentItem};
use vstd::prelude::*;

verus! {

/// Which of the two native pickers to show.
#[derive(Clone, Copy, Debug, PartialEq, Eq, Structural)]
pub enum DialogMode {
    Open,
    Save,
}

/// What to show in a native file picker.
#[derive(Clone, Debug, PartialEq, Eq)]
pub struct DialogRequest {
    pub mode: DialogMode,
    pub filter: FileFilter,
    /// The file name a save picker starts with.
    pub default_name: Option<String>,
}

/// What a [`DialogRequest`] holds, as mathematical values.
pub struct DialogRequestView {
    pub mode: DialogMode,
    pub filter: FileFilterView,
    pub default_name: Option<Seq<char>>,
}

impl View for DialogRequest {
    type V = DialogRequestView;

    open spec fn view(&self) -> DialogRequestView {
        DialogRequestView {
            mode: self.mode,
            filter: self.filter@,
            default_name: self.default_name.deep_view(),
        }
    }
}

/// The picker for `kind`: its filter in either mode, and its default file
/// name when saving.
pub open spec fn spec_dialog(mode: DialogMode, kind: DocumentKind) -> DialogRequestView {
    DialogRequestView {
        mode,
        filter: kind.spec_filter(),
        default_name: match mode {
            DialogMode::Open => None,
            DialogMode::Save => Some(kind.spec_default_file_name()),
        },
    }
}

pub fn dialog_request(mode: DialogMode, kind: DocumentKind) -> (request: DialogRequest)
    ensures
        request@ == spec_dialog(mode, kind),
{
    let default_name = match mode {
        DialogMode::Open => None,
        DialogMode::Save => Some(kind.default_file_name().to_owned()),
    };
    DialogRequest { mode, filter: kind.filter(), default_name }
}

/// A request from the frontend.
#[derive(Clone, Debug, PartialEq, Eq)]
pub enum Command {
    /// Let the user pick a document of `kind` and open it.
    Open { kind: DocumentKind },
    /// Open the document of `kind` at `path`.
    Load { kind: DocumentKind, path: String },
    /// Save a document of `kind`.
    Save { kind: DocumentKind, request: SaveRequest },
}

/// What a [`Command`] holds, as mathematical values.
pub enum CommandView {
    Open { kind: DocumentKind },
    Load { kind: DocumentKind, path: Seq<char> },
    Save { kind: DocumentKind, request: SaveRequestView },
}

impl View for Command {
    type V = CommandView;

    open spec fn view(&self) -> CommandView {
        match self {
            Command::Open { kind } => CommandView::Open { kind: *kind },
            Command::Load { kind, path } => CommandView::Load { kind: *kind, path: path@ },
            Command::Save { kind, request } => CommandView::Save {
                kind: *kind,
                request: request@,
            },
        }
    }
}

/// Why a command produced no document.
#[derive(Clone, Debug, PartialEq, Eq)]
pub enum Failure {
    /// The file could not be read or written; the system's words.
    Io(String),
    /// What the picker returned is no local path; the picker's words.
    UnusablePath(String),
    /// A save needed a path and the user gave none.
    SaveCancelled,
}

/// What a [`Failure`] holds, as mathematical values.
pub enum FailureView {
    Io(Seq<char>),
    UnusablePath(Seq<char>),
    SaveCancelled,
}

impl View for Failure {
    type V = FailureView;

    open spec fn view(&self) -> FailureView {
        match self {
            Failure::Io(message) => FailureView::Io(message@),
            Failure::UnusablePath(message) => FailureView::UnusablePath(message@),
            Failure::SaveCancelled => FailureView::SaveCancelled,
        }
    }
}

impl FailureView {
    /// The words the frontend is given for this failure.
    pub open spec fn message(self) -> Seq<char> {
        match self {
            FailureView::Io(message) => message,
            FailureView::UnusablePath(message) => message,
            FailureView::SaveCancelled => "Save cancelled"@,
        }
    }
}

impl Failure {
    /// The words the frontend is given for this failure.
    pub fn message(&self) -> (message: String)
        ensures
            message@ == self@.message(),
    {
        match self {
            Failure::Io(message) => message.clone(),
            Failure::UnusablePath(message) => message.clone(),
            Failure::SaveCancelled => "Save cancelled".to_owned(),
        }
    }
}

/// A use of a document that the recently-used list should record.
#[derive(Clone, Debug, PartialEq, Eq)]
pub struct Touch {
    pub kind: DocumentKind,
    pub path: String,
    pub name: Option<String>,
}

/// What a [`Touch`] holds, as mathematical values.
pub struct TouchView {
    pub kind: DocumentKind,
    pub path: Seq<char>,
    pub name: Option<Seq<char>>,
}

impl View for Touch {
    type V = TouchView;

    open spec fn view(&self) -> TouchView {
        TouchView { kind: self.kind, path: self.path@, name: self.name.deep_view() }
    }
}

/// What the frontend is told when a command ends.
#[derive(Clone, Debug, PartialEq, Eq)]
pub enum Reply {
    Opened(OpenResult),
    /// The user closed the open picker without choosing; no error.
    NothingOpened,
    Saved(SaveResult),
    Failed(Failure),
}

/// What a [`Reply`] holds, as mathematical values.
pub enum ReplyView {
    Opened(OpenResultView),
    NothingOpened,
    Saved(SaveResultView),
    Failed(FailureView),
}

impl View for Reply {
    type V = ReplyView;

    open spec fn view(&self) -> ReplyView {
        match self {
            Reply::Opened(result) => ReplyView::Opened(result@),
            Reply::NothingOpened => ReplyView::NothingOpened,
            Reply::Saved(result) => ReplyView::Saved(result@),
            Reply::Failed(failure) => ReplyView::Failed(failure@),
        }
    }
}

/// The outcome of an effect the shell performed.
#[derive(Clone, Debug, PartialEq, Eq)]
pub enum Event {
    /// The user picked this path in the dialog.
    Picked(String),
    /// The user picked something that is no local path.
    PickUnusable(String),
    /// The user dismissed the dialog.
    Cancelled,
    /// The dialog went away without ever answering.
    Closed,
    /// The file was read; its text.
    ReadDone(String),
    ReadFailed(String),
    WriteDone,
    WriteFailed(String),
}

/// What an [`Event`] holds, as mathematical values.
pub enum EventView {
    Picked(Seq<char>),
    PickUnusable(Seq<char>),
    Cancelled,
    Closed,
    ReadDone(Seq<char>),
    ReadFailed(Seq<char>),
    WriteDone,
    WriteFailed(Seq<char>),
}

impl View for Event {
    type V = EventView;

    open spec fn view(&self) -> EventView {
        match self {
            Event::Picked(path) => EventView::Picked(path@),
            Event::PickUnusable(message) => EventView::PickUnusable(message@),
            Event::Cancelled => EventView::Cancelled,
            Event::Closed => EventView::Closed,
            Event::ReadDone(contents) => EventView::ReadDone(contents@),
            Event::ReadFailed(message) => EventView::ReadFailed(message@),
            Event::WriteDone => EventView::WriteDone,
            Event::WriteFailed(message) => EventView::WriteFailed(message@),
        }
    }
}

/// What a dialog said, as the rendezvous with its callback delivered it:
/// nothing at all when the dialog went away before answering, an empty
/// answer when the user dismissed it, and otherwise the chosen file as a
/// local path or the reason why it is none.
pub open spec fn spec_dialog_event(
    received: Option<Option<Result<String, String>>>,
) -> EventView {
    match received {
        None => EventView::Closed,
        Some(None) => EventView::Cancelled,
        Some(Some(Ok(path))) => EventView::Picked(path@),
        Some(Some(Err(message))) => EventView::PickUnusable(message@),
    }
}

/// The event that stands for what a dialog said.
pub fn dialog_event(received: Option<Option<Result<String, String>>>) -> (event: Event)
    ensures
        event@ == spec_dialog_event(received),
{
    match received {
        None => Event::Closed,
        Some(None) => Event::Cancelled,
        Some(Some(Ok(path))) => Event::Picked(path),
        Some(Some(Err(message))) => Event::PickUnusable(message),
    }
}

/// What the shell must do next.
#[derive(Clone, Debug, PartialEq, Eq)]
pub enum Action {
    /// Show this picker and report what the user did.
    Ask(DialogRequest),
    /// Read the whole file as text and report it.
    Read { path: String },
    /// Write `contents` as the whole file and report how it went.
    Write { path: String, contents: String },
    /// Record `touch`, if any, and answer the frontend with `reply`.
    Finish { reply: Reply, touch: Option<Touch> },
    /// The event answers nothing that was asked: drop it.
    Ignore,
}

/// What an [`Action`] holds, as mathematical values.
pub enum ActionView {
    Ask(DialogRequestView),
    Read { path: Seq<char> },
    Write { path: Seq<char>, contents: Seq<char> },
    Finish { reply: ReplyView, touch: Option<TouchView> },
    Ignore,
}

impl View for Action {
    type V = ActionView;

    open spec fn view(&self) -> ActionView {
        match self {
            Action::Ask(request) => ActionView::Ask(request@),
            Action::Read { path } => ActionView::Read { path: path@ },
            Action::Write { path, contents } => ActionView::Write {
                path: path@,
                contents: contents@,
            },
            Action::Finish { reply, touch } => ActionView::Finish {
                reply: reply@,
                touch: match touch {
                    Some(touch) => Some(touch@),
                    None => None,
                },
            },
            Action::Ignore => ActionView::Ignore,
        }
    }
}

/// Where a command stands: what it waits for, and what it must remember
/// until then.
#[derive(Clone, Debug, PartialEq, Eq)]
pub enum Flow {
    /// The open picker is showing.
    Choosing { kind: DocumentKind },
    /// The save picker is showing.
    ChoosingTarget { kind: DocumentKind, name: Option<String>, contents: String },
    /// The file at `path` is being read.
    Reading { kind: DocumentKind, path: String },
    /// The file at `path` is being written.
    Writing { kind: DocumentKind, path: String, name: Option<String> },
    /// The command has answered.
    Done,
}

/// What a [`Flow`] holds, as mathematical values.
pub enum FlowView {
    Choosing { kind: DocumentKind },
    ChoosingTarget { kind: DocumentKind, name: Option<Seq<char>>, contents: Seq<char> },
    Reading { kind: DocumentKind, path: Seq<char> },
    Writing { kind: DocumentKind, path: Seq<char>, name: Option<Seq<char>> },
    Done,
}

impl View for Flow {
    type V = FlowView;

    open spec fn view(&self) -> FlowView {
        match self {
            Flow::Choosing { kind } => FlowView::Choosing { kind: *kind },
            Flow::ChoosingTarget { kind, name, contents } => FlowView::ChoosingTarget {
                kind: *kind,
                name: name.deep_view(),
                contents: contents@,
            },
            Flow::Reading { kind, path } => FlowView::Reading { kind: *kind, path: path@ },
            Flow::Writing { kind, path, name } => FlowView::Writing {
                kind: *kind,
                path: path@,
                name: name.deep_view(),
            },
            Flow::Done => FlowView::Done,
        }
    }
}

/// The end of a command that produced no document.
pub open spec fn spec_failed(failure: FailureView) -> ActionView {
    ActionView::Finish { reply: ReplyView::Failed(failure), touch: None }
}

/// The end of an open: the document goes to the frontend under `name`, and
/// the same use goes to the recently-used list.
pub open spec fn spec_opened(
    kind: DocumentKind,
    path: Seq<char>,
    name: Option<Seq<char>>,
    contents: Seq<char>,
) -> ActionView {
    ActionView::Finish {
        reply: ReplyView::Opened(OpenResultView { path, name, contents }),
        touch: Some(TouchView { kind, path, name }),
    }
}

/// The end of a save: the name the request gave, or else the one derived
/// from the path, goes to the recently-used list.
pub open spec fn spec_saved(
    kind: DocumentKind,
    path: Seq<char>,
    given: Option<Seq<char>>,
    derived: Option<Seq<char>>,
) -> ActionView {
    ActionView::Finish {
        reply: ReplyView::Saved(SaveResultView { path }),
        touch: Some(
            TouchView {
                kind,
                path,
                name: match given {
                    Some(name) => Some(name),
                    None => derived,
                },
            },
        ),
    }
}

/// How a command begins.
pub open spec fn spec_start(command: CommandView) -> (FlowView, ActionView) {
    match command {
        CommandView::Open { kind } => (
            FlowView::Choosing { kind },
            ActionView::Ask(spec_dialog(DialogMode::Open, kind)),
        ),
        CommandView::Load { kind, path } => (
            FlowView::Reading { kind, path },
            ActionView::Read { path },
        ),
        CommandView::Save { kind, request } => match request.path {
            Some(path) => (
                FlowView::Writing { kind, path, name: request.name },
                ActionView::Write { path, contents: request.contents },
            ),
            None => (
                FlowView::ChoosingTarget { kind, name: request.name, contents: request.contents },
                ActionView::Ask(spec_dialog(DialogMode::Save, kind)),
            ),
        },
    }
}

/// How a command goes on when `event` arrives.
///
/// An event that answers what the command waits for moves it on; any other
/// is dropped and changes nothing.
pub open spec fn spec_step(flow: FlowView, event: EventView) -> (FlowView, ActionView) {
    match flow {
        FlowView::Choosing { kind } => match event {
            EventView::Picked(path) => (
                FlowView::Reading { kind, path },
                ActionView::Read { path },
            ),
            EventView::PickUnusable(message) => (
                FlowView::Done,
                spec_failed(FailureView::UnusablePath(message)),
            ),
            EventView::Cancelled | EventView::Closed => (
                FlowView::Done,
                ActionView::Finish { reply: ReplyView::NothingOpened, touch: None },
            ),
            _ => (flow, ActionView::Ignore),
        },
        FlowView::ChoosingTarget { kind, name, contents } => match event {
            EventView::Picked(path) => (
                FlowView::Writing { kind, path, name },
                ActionView::Write { path, contents },
            ),
            EventView::PickUnusable(message) => (
                FlowView::Done,
                spec_failed(FailureView::UnusablePath(message)),
            ),
            EventView::Cancelled | EventView::Closed => (
                FlowView::Done,
                spec_failed(FailureView::SaveCancelled),
            ),
            _ => (flow, ActionView::Ignore),
        },
        FlowView::Reading { kind, path } => match event {
            EventView::ReadDone(contents) => (
                FlowView::Done,
                spec_opened(kind, path, final_component(path), contents),
            ),
            EventView::ReadFailed(message) => (
                FlowView::Done,
                spec_failed(FailureView::Io(message)),
            ),
            _ => (flow, ActionView::Ignore),
        },
        FlowView::Writing { kind, path, name } => match event {
            EventView::WriteDone => (
                FlowView::Done,
                spec_saved(kind, path, name, final_component(path)),
            ),
            EventView::WriteFailed(message) => (
                FlowView::Done,
                spec_failed(FailureView::Io(message)),
            ),
            _ => (flow, ActionView::Ignore),
        },
        FlowView::Done => (flow, ActionView::Ignore),
    }
}

fn clone_name(name: &Option<String>) -> (copy: Option<String>)
    ensures
        copy.deep_view() == name.deep_view(),
{
    match name {
        Some(name) => Some(name.clone()),
        None => None,
    }
}

/// Ends a command that produced no document.
pub fn failed(failure: Failure) -> (action: Action)
    ensures
        action@ == spec_failed(failure@),
{
    Action::Finish { reply: Reply::Failed(failure), touch: None }
}

/// Ends an open of the document at `path`, shown under `name`.
pub fn opened(kind: DocumentKind, path: String, name: Option<String>, contents: String) -> (action:
    Action)
    ensures
        action@ == spec_opened(kind, path@, name.deep_view(), contents@),
{
    let touch = Touch { kind, path: path.clone(), name: clone_name(&name) };
    Action::Finish { reply: Reply::Opened(OpenResult { path, name, contents }), touch: Some(touch) }
}

/// Ends a save to `path`, remembered under the name the request `given`, or
/// else under the one `derived` from the path.
pub fn saved(
    kind: DocumentKind,
    path: String,
    given: Option<String>,
    derived: Option<String>,
) -> (action: Action)
    ensures
        action@ == spec_saved(kind, path@, given.deep_view(), derived.deep_view()),
{
    let name = match given {
        Some(name) => Some(name),
        None => derived,
    };
    let touch = Touch { kind, path: path.clone(), name };
    Action::Finish { reply: Reply::Saved(SaveResult { path }), touch: Some(touch) }
}

/// Begins `command`: the state to keep and the first thing to do.
pub fn start(command: Command) -> (begun: (Flow, Action))
    ensures
        (begun.0@, begun.1@) == spec_start(command@),
{
    match command {
        Command::Open { kind } => (
            Flow::Choosing { kind },
            Action::Ask(dialog_request(DialogMode::Open, kind)),
        ),
        Command::Load { kind, path } => {
            let action = Action::Read { path: path.clone() };
            (Flow::Reading { kind, path }, action)
        },
        Command::Save { kind, request } => {
            let SaveRequest { path, name, contents } = request;
            match path {
                Some(path) => {
                    let action = Action::Write { path: path.clone(), contents };
                    (Flow::Writing { kind, path, name }, action)
                },
                None => (
                    Flow::ChoosingTarget { kind, name, contents },
                    Action::Ask(dialog_request(DialogMode::Save, kind)),
                ),
            }
        },
    }
}

/// Moves `flow` on by `event`: the state to keep and the next thing to do.
pub fn step(flow: Flow, event: Event) -> (next: (Flow, Action))
    ensures
        (next.0@, next.1@) == spec_step(flow@, event@),
{
    match flow {
        Flow::Choosing { kind } => match event {
            Event::Picked(path) => {
                let action = Action::Read { path: path.clone() };
                (Flow::Reading { kind, path }, action)
            },
            Event::PickUnusable(message) => (Flow::Done, failed(Failure::UnusablePath(message))),
            Event::Cancelled => (
                Flow::Done,
                Action::Finish { reply: Reply::NothingOpened, touch: None },
            ),
            Event::Closed => (
                Flow::Done,
                Action::Finish { reply: Reply::NothingOpened, touch: None },
            ),
            _ => (Flow::Choosing { kind }, Action::Ignore),
        },
        Flow::ChoosingTarget { kind, name, contents } => match event {
            Event::Picked(path) => {
                let action = Action::Write { path: path.clone(), contents };
                (Flow::Writing { kind, path, name }, action)
            },
            Event::PickUnusable(message) => (Flow::Done, failed(Failure::UnusablePath(message))),
            Event::Cancelled => (Flow::Done, failed(Failure::SaveCancelled)),
            Event::Closed => (Flow::Done, failed(Failure::SaveCancelled)),
            _ => (Flow::ChoosingTarget { kind, name, contents }, Action::Ignore),
        },
        Flow::Reading { kind, path } => match event {
            Event::ReadDone(contents) => {
                let name = file_name(path.as_str());
                (Flow::Done, opened(kind, path, name, contents))
            },
            Event::ReadFailed(message) => (Flow::Done, failed(Failure::Io(message))),
            _ => (Flow::Reading { kind, path }, Action::Ignore),
        },
        Flow::Writing { kind, path, name } => match event {
            Event::WriteDone => {
                let derived = match name {
                    Some(_) => None,
                    None => file_name(path.as_str()),
                };
                (Flow::Done, saved(kind, path, name, derived))
            },
            Event::WriteFailed(message) => (Flow::Done, failed(Failure::Io(message))),
            _ => (Flow::Writing { kind, path, name }, Action::Ignore),
        },
        Flow::Done => (Flow::Done, Action::Ignore),
    }
}

/// Records `touch` in `recents`, filed under the tag of its kind and timed by
/// the system clock.
pub fn record(touch: Touch, recents: Vec<RecentItem>) -> (updated: Vec<RecentItem>)
    ensures
        updated.len() > 0,
        updated.deep_view() == touched(
            recents.deep_view(),
            touch.kind.spec_tag(),
            touch.path@,
            touch.name.deep_view(),
            updated[0].updated_at,
        ),
{
    let Touch { kind, path, name } = touch;
    update_recents(recents, kind.tag(), path.as_str(), name)
}

/// How many more answers `flow` can take before it is done.
pub open spec fn answers_left(flow: FlowView) -> nat {
    match flow {
        FlowView::Choosing { .. } | FlowView::ChoosingTarget { .. } => 2,
        FlowView::Reading { .. } | FlowView::Writing { .. } => 1,
        FlowView::Done => 0,
    }
}

/// Every event is either dropped, leaving the command where it was, or
/// brings it strictly closer to its end: nothing is ever asked twice.
pub proof fn each_answer_advances(flow: FlowView, event: EventView)
    ensures
        spec_step(flow, event).1 is Ignore ==> spec_step(flow, event).0 == flow,
        !(spec_step(flow, event).1 is Ignore) ==> answers_left(spec_step(flow, event).0)
            < answers_left(flow),
        spec_step(flow, event).1 is Finish <==> !(flow is Done) && spec_step(flow, event).0 is Done,
{
}

/// A use is recorded exactly when a document was opened or saved, and it is
/// the use of that very document.
pub proof fn recents_follow_success(flow: FlowView, event: EventView)
    ensures
        match spec_step(flow, event).1 {
            ActionView::Finish { reply: ReplyView::Opened(result), touch } => touch matches Some(
                touch,
            ) && touch.path == result.path && touch.name == result.name,
            ActionView::Finish { reply: ReplyView::Saved(result), touch } => touch matches Some(
                touch,
            ) && touch.path == result.path,
            ActionView::Finish { reply: _, touch } => touch is None,
            _ => true,
        },
{
}

/// A save without a path whose dialog is cancelled, or goes away unanswered,
/// ends in the cancellation failure. No write is asked for, then or later,
/// and nothing is recorded.
pub proof fn cancelled_save_writes_nothing(
    kind: DocumentKind,
    request: SaveRequestView,
    outcome: EventView,
    later: EventView,
)
    requires
        request.path is None,
        outcome is Cancelled || outcome is Closed,
    ensures
        spec_start(CommandView::Save { kind, request }).1 == ActionView::Ask(
            spec_dialog(DialogMode::Save, kind),
        ),
        spec_step(spec_start(CommandView::Save { kind, request }).0, outcome) == (
            FlowView::Done,
            spec_failed(FailureView::SaveCancelled),
        ),
        spec_step(FlowView::Done, later) == (FlowView::Done, ActionView::Ignore),
{
}

/// An open whose dialog is cancelled, or goes away unanswered, ends with no
/// document and no failure, and reads nothing.
pub proof fn cancelled_open_is_no_error(kind: DocumentKind, outcome: EventView)
    requires
        outcome is Cancelled || outcome is Closed,
    ensures
        spec_step(spec_start(CommandView::Open { kind }).0, outcome) == (
            FlowView::Done,
            ActionView::Finish { reply: ReplyView::NothingOpened, touch: None },
        ),
{
}

/// Saving `contents` to `path` asks the shell to write exactly `contents`
/// at `path`; opening `path` asks it to read exactly there and hands back
/// what was read unchanged. Over a store that returns what was last written,
/// a save followed by an open therefore yields `contents`.
pub proof fn save_then_open_round_trip(
    saved_as: DocumentKind,
    opened_as: DocumentKind,
    path: Seq<char>,
    name: Option<Seq<char>>,
    contents: Seq<char>,
)
    ensures
        ({
            let request = SaveRequestView { path: Some(path), name, contents };
            let (writing, write) = spec_start(CommandView::Save { kind: saved_as, request });
            let (reading, read) = spec_start(CommandView::Load { kind: opened_as, path });
            &&& write == ActionView::Write { path, contents }
            &&& spec_step(writing, EventView::WriteDone).1 matches ActionView::Finish {
                reply: ReplyView::Saved(result),
                ..
            } && result.path == path
            &&& read == ActionView::Read { path }
            &&& spec_step(reading, EventView::ReadDone(contents)).1 matches ActionView::Finish {
                reply: ReplyView::Opened(result),
                ..
            } && result.path == path && result.contents == contents
        }),
{
}

} // verus!
