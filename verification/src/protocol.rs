//! One request to the cache as a sequence of steps.
//!
//! An [`Operation`] asks for one [`Action`] at a time. Whoever runs it
//! performs the action and reports the [`Event`]; [`Operation::advance`] then
//! says what comes next, or how the request ended.

use crate::encoding::{base64_text, encode_standard_padded, max_encodable, Alphabet};
use crate::error::CacheError;
use crate::folder_manager::{join_path, joined_path};
use crate::transport::{is_absolute_url, parses_as_url};
use vstd::prelude::*;

verus! {

/// The file of one slot: the cache folder and the file's name in it.
#[derive(Debug, PartialEq, Eq)]
pub struct CacheFile {
    pub folder: String,
    pub name: String,
}

/// A [`CacheFile`] as plain text.
pub struct CacheFileView {
    pub folder: Seq<char>,
    pub name: Seq<char>,
}

impl View for CacheFile {
    type V = CacheFileView;

    open spec fn view(&self) -> CacheFileView {
        CacheFileView { folder: self.folder@, name: self.name@ }
    }
}

impl CacheFileView {
    /// The text of the file's path, where it has one.
    pub open spec fn path(self) -> Option<Seq<char>> {
        joined_path(self.folder, self.name)
    }
}

impl CacheFile {
    /// The text of the file's path, or nothing where the path has no text.
    pub fn path(&self) -> (text: Option<String>)
        ensures
            text.deep_view() == self@.path(),
    {
        join_path(self.folder.as_str(), self.name.as_str())
    }

    /// A second value for the same file.
    pub fn duplicate(&self) -> (copy: CacheFile)
        ensures
            copy@ == self@,
    {
        CacheFile { folder: self.folder.clone(), name: self.name.clone() }
    }
}

/// What a request is for.
#[derive(Clone, Copy, Debug, PartialEq, Eq, Structural)]
pub enum Goal {
    /// The path of the slot's file, fetched first if the slot is empty.
    Locate,
    /// The content of the slot's file as base64 text, fetched first if the slot is empty.
    Load,
    /// The slot emptied.
    Invalidate,
    /// The slot emptied and filled anew, and the path of its file.
    Refresh,
}

/// How far a request has come: which answer it waits for.
#[derive(Clone, Copy, Debug, PartialEq, Eq, Structural)]
pub enum Stage {
    /// Whether the file exists that is to be deleted.
    ProbingForRemoval,
    /// Whether the file was deleted.
    Removing,
    /// Whether the file exists that is to be located or loaded.
    ProbingForFetch,
    /// Whether the resource was fetched and stored. `probe_failed` records
    /// that the existence check before it failed, so that the slot is only
    /// assumed to be empty.
    Fetching { probe_failed: bool },
    /// The content of the file.
    Loading,
}

/// What an existence check found.
#[derive(Clone, Copy, Debug, PartialEq, Eq, Structural)]
pub enum Presence {
    Present,
    Absent,
    /// The check itself failed.
    Unknown,
}

/// How a fetch ended.
#[derive(Clone, Copy, Debug, PartialEq, Eq, Structural)]
pub enum FetchOutcome {
    /// The whole response body is in the slot's file.
    Stored,
    /// The request failed, timed out, or was answered with a status that is no success.
    TransportFailed,
    /// The body arrived, and the file could not be created or written.
    WriteFailed,
}

/// The step that an operation asks for.
#[derive(Debug, PartialEq, Eq)]
pub enum Action {
    /// Check whether the file exists.
    Probe { file: CacheFile },
    /// Send a GET request to `url`, with `token` as bearer token if there is
    /// one, and write the response body to the file, which is created or
    /// truncated. Where `probe_failed` holds, the existence check failed
    /// before: that is worth a log entry before the request goes out.
    Fetch { url: String, token: Option<String>, file: CacheFile, probe_failed: bool },
    /// Delete the file.
    Remove { file: CacheFile },
    /// Read the whole file.
    Load { file: CacheFile },
}

/// An [`Action`] as plain text.
pub enum ActionView {
    Probe { file: CacheFileView },
    Fetch { url: Seq<char>, token: Option<Seq<char>>, file: CacheFileView, probe_failed: bool },
    Remove { file: CacheFileView },
    Load { file: CacheFileView },
}

impl View for Action {
    type V = ActionView;

    open spec fn view(&self) -> ActionView {
        match *self {
            Action::Probe { file } => ActionView::Probe { file: file@ },
            Action::Fetch { url, token, file, probe_failed } => ActionView::Fetch {
                url: url@,
                token: token.deep_view(),
                file: file@,
                probe_failed,
            },
            Action::Remove { file } => ActionView::Remove { file: file@ },
            Action::Load { file } => ActionView::Load { file: file@ },
        }
    }
}

/// The report on an action that was performed.
#[derive(Debug, PartialEq, Eq)]
pub enum Event {
    /// The answer to [`Action::Probe`].
    Probed(Presence),
    /// The answer to [`Action::Fetch`].
    Fetched(FetchOutcome),
    /// The answer to [`Action::Remove`]: whether the file was deleted.
    Removed(bool),
    /// The answer to [`Action::Load`]: the file's bytes, or nothing where reading failed.
    Loaded(Option<Vec<u8>>),
}

/// An [`Event`] with its bytes as a sequence.
pub enum EventView {
    Probed(Presence),
    Fetched(FetchOutcome),
    Removed(bool),
    Loaded(Option<Seq<u8>>),
}

impl View for Event {
    type V = EventView;

    open spec fn view(&self) -> EventView {
        match *self {
            Event::Probed(presence) => EventView::Probed(presence),
            Event::Fetched(outcome) => EventView::Fetched(outcome),
            Event::Removed(done) => EventView::Removed(done),
            Event::Loaded(bytes) => EventView::Loaded(
                match bytes {
                    Some(b) => Some(b@),
                    None => None,
                },
            ),
        }
    }
}

/// What a request that succeeded hands back.
#[derive(Debug, PartialEq, Eq)]
pub enum Output {
    /// The path of the slot's file.
    Path(String),
    /// The content of the slot's file as standard base64 text.
    Content(String),
    /// Nothing: the slot was emptied.
    Invalidated,
}

/// An [`Output`] as plain text.
pub enum OutputView {
    Path(Seq<char>),
    Content(Seq<char>),
    Invalidated,
}

impl View for Output {
    type V = OutputView;

    open spec fn view(&self) -> OutputView {
        match *self {
            Output::Path(path) => OutputView::Path(path@),
            Output::Content(text) => OutputView::Content(text@),
            Output::Invalidated => OutputView::Invalidated,
        }
    }
}

/// A request under way.
#[derive(Debug, PartialEq, Eq)]
pub struct Operation {
    pub goal: Goal,
    pub stage: Stage,
    /// Where to fetch from if the slot is empty.
    pub url: String,
    /// The bearer token that goes with a fetch.
    pub token: Option<String>,
    /// The file of the slot.
    pub file: CacheFile,
}

/// An [`Operation`] as plain text.
pub struct OperationView {
    pub goal: Goal,
    pub stage: Stage,
    pub url: Seq<char>,
    pub token: Option<Seq<char>>,
    pub file: CacheFileView,
}

impl View for Operation {
    type V = OperationView;

    open spec fn view(&self) -> OperationView {
        OperationView {
            goal: self.goal,
            stage: self.stage,
            url: self.url@,
            token: self.token.deep_view(),
            file: self.file@,
        }
    }
}

/// Where a request stands after a step.
#[derive(Debug, PartialEq, Eq)]
pub enum Progress {
    /// The request goes on: the operation asks for its next action.
    Pending(Operation),
    /// The request has ended.
    Finished(Result<Output, CacheError>),
}

/// A [`Progress`] as plain text.
pub enum ProgressView {
    Pending(OperationView),
    Finished(Result<OutputView, CacheError>),
}

impl View for Progress {
    type V = ProgressView;

    open spec fn view(&self) -> ProgressView {
        match *self {
            Progress::Pending(op) => ProgressView::Pending(op@),
            Progress::Finished(Ok(output)) => ProgressView::Finished(Ok(output@)),
            Progress::Finished(Err(error)) => ProgressView::Finished(Err(error)),
        }
    }
}

impl OperationView {
    /// The operation at another stage.
    pub open spec fn at(self, stage: Stage) -> OperationView {
        OperationView { stage, ..self }
    }

    /// The action that the operation asks for.
    pub open spec fn action(self) -> ActionView {
        match self.stage {
            Stage::ProbingForRemoval | Stage::ProbingForFetch => ActionView::Probe {
                file: self.file,
            },
            Stage::Removing => ActionView::Remove { file: self.file },
            Stage::Fetching { probe_failed } => ActionView::Fetch {
                url: self.url,
                token: self.token,
                file: self.file,
                probe_failed,
            },
            Stage::Loading => ActionView::Load { file: self.file },
        }
    }

    /// Whether `event` reports on the action that the operation asks for.
    pub open spec fn awaits(self, event: EventView) -> bool {
        match (self.action(), event) {
            (ActionView::Probe { .. }, EventView::Probed(_)) => true,
            (ActionView::Fetch { .. }, EventView::Fetched(_)) => true,
            (ActionView::Remove { .. }, EventView::Removed(_)) => true,
            (ActionView::Load { .. }, EventView::Loaded(_)) => true,
            _ => false,
        }
    }

    /// What follows once the slot is known to be filled: the path is the
    /// result, unless the content is asked for, which is read next. A path
    /// without text is an error of its own.
    pub open spec fn conclude(self, path: Option<Seq<char>>) -> ProgressView {
        match path {
            None => ProgressView::Finished(Err(CacheError::PathEncoding)),
            Some(text) => if self.goal == Goal::Load {
                ProgressView::Pending(self.at(Stage::Loading))
            } else {
                ProgressView::Finished(Ok(OutputView::Path(text)))
            },
        }
    }

    /// What follows once the slot counts as empty: the fetch, unless the
    /// source is no valid remote location.
    pub open spec fn begin_fetch(self, probe_failed: bool, source_is_url: bool) -> ProgressView {
        if source_is_url {
            ProgressView::Pending(self.at(Stage::Fetching { probe_failed }))
        } else {
            ProgressView::Finished(Err(CacheError::InvalidSource))
        }
    }

    /// Where the request stands after `event`, given the text of the file's
    /// path, if it has one, and whether the source is a valid URL. An event
    /// that reports on another action than the one asked for leaves the
    /// operation as it is.
    ///
    /// Before a deletion, a check that fails is an error, and so is a file
    /// that is not there. Before a fetch, a file that is there ends the
    /// search, and a check that fails counts as a file that is not there.
    pub open spec fn step_with(
        self,
        event: EventView,
        path: Option<Seq<char>>,
        source_is_url: bool,
    ) -> ProgressView {
        match (self.stage, event) {
            (Stage::ProbingForRemoval, EventView::Probed(presence)) => match presence {
                Presence::Unknown => ProgressView::Finished(Err(CacheError::Io)),
                Presence::Absent => ProgressView::Finished(Err(CacheError::NotFound)),
                Presence::Present => if path is None {
                    ProgressView::Finished(Err(CacheError::PathEncoding))
                } else {
                    ProgressView::Pending(self.at(Stage::Removing))
                },
            },
            (Stage::Removing, EventView::Removed(done)) => if !done {
                ProgressView::Finished(Err(CacheError::Io))
            } else if self.goal == Goal::Refresh {
                ProgressView::Pending(self.at(Stage::ProbingForFetch))
            } else {
                ProgressView::Finished(Ok(OutputView::Invalidated))
            },
            (Stage::ProbingForFetch, EventView::Probed(presence)) => match presence {
                Presence::Present => self.conclude(path),
                Presence::Absent => self.begin_fetch(false, source_is_url),
                Presence::Unknown => self.begin_fetch(true, source_is_url),
            },
            (Stage::Fetching { .. }, EventView::Fetched(outcome)) => match outcome {
                FetchOutcome::Stored => self.conclude(path),
                FetchOutcome::TransportFailed => ProgressView::Finished(
                    Err(CacheError::Transport),
                ),
                FetchOutcome::WriteFailed => ProgressView::Finished(Err(CacheError::Io)),
            },
            (Stage::Loading, EventView::Loaded(bytes)) => match bytes {
                Some(b) => ProgressView::Finished(
                    Ok(OutputView::Content(base64_text(b, Alphabet::Standard, true))),
                ),
                None => ProgressView::Finished(Err(CacheError::Io)),
            },
            _ => ProgressView::Pending(self),
        }
    }

    /// Where the request stands after `event`.
    pub open spec fn step(self, event: EventView) -> ProgressView {
        self.step_with(event, self.file.path(), is_absolute_url(self.url))
    }
}

/// A second value for the same token.
fn duplicate_token(token: &Option<String>) -> (copy: Option<String>)
    ensures
        copy.deep_view() == token.deep_view(),
{
    match token {
        Some(t) => Some(t.clone()),
        None => None,
    }
}

impl Event {
    /// Whether the bytes that the event brings, if any, are few enough for
    /// their base64 text to fit in a buffer. Only a content of more than
    /// three eighths of the address space is too long.
    pub open spec fn encodable(self) -> bool {
        self matches Event::Loaded(Some(bytes)) ==> bytes@.len() <= max_encodable()
    }

    /// Whether the event may be handed to [`Operation::advance`].
    pub fn is_encodable(&self) -> (fits: bool)
        ensures
            fits == self.encodable(),
    {
        match self {
            Event::Loaded(Some(bytes)) => bytes.len() <= (usize::MAX / 2 - 4) / 4 * 3,
            _ => true,
        }
    }
}

impl Operation {
    /// The action that the operation asks for.
    pub fn action(&self) -> (action: Action)
        ensures
            action@ == self@.action(),
    {
        match self.stage {
            Stage::ProbingForRemoval | Stage::ProbingForFetch => Action::Probe {
                file: self.file.duplicate(),
            },
            Stage::Removing => Action::Remove { file: self.file.duplicate() },
            Stage::Fetching { probe_failed } => Action::Fetch {
                url: self.url.clone(),
                token: duplicate_token(&self.token),
                file: self.file.duplicate(),
                probe_failed,
            },
            Stage::Loading => Action::Load { file: self.file.duplicate() },
        }
    }

    /// The operation at another stage.
    fn at(self, stage: Stage) -> (moved: Operation)
        ensures
            moved@ == self@.at(stage),
    {
        Operation { goal: self.goal, stage, url: self.url, token: self.token, file: self.file }
    }

    /// The step after the slot is known to be filled.
    fn conclude(self, path: Option<String>) -> (next: Progress)
        ensures
            next@ == self@.conclude(path.deep_view()),
    {
        match path {
            None => Progress::Finished(Err(CacheError::PathEncoding)),
            Some(text) => {
                if self.goal == Goal::Load {
                    Progress::Pending(self.at(Stage::Loading))
                } else {
                    Progress::Finished(Ok(Output::Path(text)))
                }
            },
        }
    }

    /// The step after the slot counts as empty.
    fn begin_fetch(self, probe_failed: bool, source_is_url: bool) -> (next: Progress)
        ensures
            next@ == self@.begin_fetch(probe_failed, source_is_url),
    {
        if source_is_url {
            Progress::Pending(self.at(Stage::Fetching { probe_failed }))
        } else {
            Progress::Finished(Err(CacheError::InvalidSource))
        }
    }

    /// Takes the report on the action that the operation asked for, together
    /// with the text of the file's path, if it has one, and with whether the
    /// source is a valid URL, and says where the request stands: at its next
    /// action, or at its end.
    pub fn advance_with(self, event: Event, path: Option<String>, source_is_url: bool) -> (next:
        Progress)
        requires
            event.encodable(),
        ensures
            next@ == self@.step_with(event@, path.deep_view(), source_is_url),
    {
        match (self.stage, event) {
            (Stage::ProbingForRemoval, Event::Probed(presence)) => match presence {
                Presence::Unknown => Progress::Finished(Err(CacheError::Io)),
                Presence::Absent => Progress::Finished(Err(CacheError::NotFound)),
                Presence::Present => {
                    if path.is_none() {
                        Progress::Finished(Err(CacheError::PathEncoding))
                    } else {
                        Progress::Pending(self.at(Stage::Removing))
                    }
                },
            },
            (Stage::Removing, Event::Removed(done)) => {
                if !done {
                    Progress::Finished(Err(CacheError::Io))
                } else if self.goal == Goal::Refresh {
                    Progress::Pending(self.at(Stage::ProbingForFetch))
                } else {
                    Progress::Finished(Ok(Output::Invalidated))
                }
            },
            (Stage::ProbingForFetch, Event::Probed(presence)) => match presence {
                Presence::Present => self.conclude(path),
                Presence::Absent => self.begin_fetch(false, source_is_url),
                Presence::Unknown => self.begin_fetch(true, source_is_url),
            },
            (Stage::Fetching { .. }, Event::Fetched(outcome)) => match outcome {
                FetchOutcome::Stored => self.conclude(path),
                FetchOutcome::TransportFailed => Progress::Finished(Err(CacheError::Transport)),
                FetchOutcome::WriteFailed => Progress::Finished(Err(CacheError::Io)),
            },
            (Stage::Loading, Event::Loaded(bytes)) => match bytes {
                Some(b) => Progress::Finished(
                    Ok(Output::Content(encode_standard_padded(b.as_slice()))),
                ),
                None => Progress::Finished(Err(CacheError::Io)),
            },
            _ => Progress::Pending(self),
        }
    }

    /// Takes the report on the action that the operation asked for, and says
    /// where the request stands after it: at its next action, or at its end.
    /// An event that reports on another action leaves the operation as it is.
    pub fn advance(self, event: Event) -> (next: Progress)
        requires
            event.encodable(),
        ensures
            next@ == self@.step(event@),
    {
        let path = self.file.path();
        let source_is_url = parses_as_url(self.url.as_str());
        self.advance_with(event, path, source_is_url)
    }
}

} // verus!
