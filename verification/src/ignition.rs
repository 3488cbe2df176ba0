//! Startup, one decision at a time.
//!
//! Startup needs work that only the host can do: reading the configuration,
//! finding the sheet's source on disk, running the compiler. An [`Ignition`]
//! tells the host which piece of work is due, takes what came of it and
//! decides what follows, until a sheet is published or startup has failed.
//! After that nothing changes it any more.

use crate::config::{
    chosen_max_age, chosen_sheet_path, resolve_max_age, resolve_sheet_path, Setting, SettingKey,
    SettingView,
};
use crate::error::{StartupError, StartupErrorView};
use crate::sheet::{SassSheet, SassSheetView};
use vstd::prelude::*;

verus! {

/// What came of a piece of the host's work.
#[derive(Debug, PartialEq, Eq)]
pub enum Event {
    /// What the configuration holds for the sheet's path.
    SheetPath(Setting<String>),
    /// The path was normalized against the base directory: the normalized
    /// path of an entry that exists, or why there is none.
    Normalized(Result<String, String>),
    /// The compiler ran: the compiled text, or its report of the failure.
    Compiled(Result<String, String>),
    /// What the configuration holds for the cache lifetime.
    MaxAge(Setting<u32>),
}

/// An `Event` as plain values.
pub enum EventView {
    SheetPath(SettingView<Seq<char>>),
    Normalized(Result<Seq<char>, Seq<char>>),
    Compiled(Result<Seq<char>, Seq<char>>),
    MaxAge(SettingView<u32>),
}

/// The outcome of a piece of work as plain values.
pub open spec fn outcome_view(outcome: Result<String, String>) -> Result<Seq<char>, Seq<char>> {
    match outcome {
        Ok(text) => Ok(text@),
        Err(text) => Err(text@),
    }
}

impl View for Event {
    type V = EventView;

    open spec fn view(&self) -> EventView {
        match *self {
            Event::SheetPath(setting) => EventView::SheetPath(setting@),
            Event::Normalized(outcome) => EventView::Normalized(outcome_view(outcome)),
            Event::Compiled(outcome) => EventView::Compiled(outcome_view(outcome)),
            Event::MaxAge(setting) => EventView::MaxAge(setting@),
        }
    }
}

/// How the compiler lays out what it writes.
#[derive(Debug, Clone, Copy, PartialEq, Eq, Structural)]
pub enum OutputStyle {
    /// One declaration a line, indented.
    Expanded,
    /// As few bytes as the sheet allows.
    Compressed,
}

/// The piece of work that is due.
#[derive(Debug, PartialEq, Eq)]
pub enum Action {
    /// Read the setting `key` from the configuration.
    ReadSetting { key: SettingKey },
    /// Normalize `relative` against the base directory.
    Normalize { relative: String },
    /// Log `notice`, then compile the sheet at `path` in the style `style`.
    Compile { path: String, style: OutputStyle, notice: String },
    /// The sheet is published: begin to serve.
    Serve,
    /// Startup has failed: report `error` and do not serve.
    Abort { error: StartupError },
}

/// An `Action` as plain values.
pub enum ActionView {
    ReadSetting { key: SettingKey },
    Normalize { relative: Seq<char> },
    Compile { path: Seq<char>, style: OutputStyle, notice: Seq<char> },
    Serve,
    Abort { error: StartupErrorView },
}

impl View for Action {
    type V = ActionView;

    open spec fn view(&self) -> ActionView {
        match *self {
            Action::ReadSetting { key } => ActionView::ReadSetting { key },
            Action::Normalize { relative } => ActionView::Normalize { relative: relative@ },
            Action::Compile { path, style, notice } => ActionView::Compile {
                path: path@,
                style,
                notice: notice@,
            },
            Action::Serve => ActionView::Serve,
            Action::Abort { error } => ActionView::Abort { error: error@ },
        }
    }
}

/// How far startup has come.
pub enum Phase {
    /// Nothing has been done yet.
    Start,
    /// The relative path is chosen and has to be normalized.
    Resolving { relative: Seq<char> },
    /// The source is found and has to be compiled.
    Compiling { path: Seq<char> },
    /// The sheet is compiled; its cache lifetime is still open.
    Finishing { path: Seq<char>, content: Seq<char> },
    /// The sheet is published.
    Published { sheet: SassSheetView },
    /// Startup has failed.
    Failed { error: StartupErrorView },
}

/// The line that is logged before the sheet at `path` is compiled.
pub open spec fn compiling_notice(path: Seq<char>) -> Seq<char> {
    "Compiling sass... file "@ + path
}

/// The phase that follows `phase` on `event`. An event that the phase does
/// not wait for changes nothing.
pub open spec fn next(phase: Phase, event: EventView) -> Phase {
    match (phase, event) {
        (Phase::Start, EventView::SheetPath(setting)) => match chosen_sheet_path(setting) {
            Ok(relative) => Phase::Resolving { relative },
            Err(error) => Phase::Failed { error },
        },
        (Phase::Resolving { relative }, EventView::Normalized(outcome)) => match outcome {
            Ok(path) => Phase::Compiling { path },
            Err(reason) => Phase::Failed {
                error: StartupErrorView::NotFound { path: relative, reason },
            },
        },
        (Phase::Compiling { path }, EventView::Compiled(outcome)) => match outcome {
            Ok(content) => Phase::Finishing { path, content },
            Err(diagnostic) => Phase::Failed { error: StartupErrorView::Compile { diagnostic } },
        },
        (Phase::Finishing { path, content }, EventView::MaxAge(setting)) => match chosen_max_age(
            setting,
        ) {
            Ok(cache_max_age) => Phase::Published {
                sheet: SassSheetView { content, cache_max_age, path },
            },
            Err(error) => Phase::Failed { error },
        },
        _ => phase,
    }
}

/// The piece of work that `phase` waits for. The sheet is always compiled
/// compressed: it is served as the compiler wrote it.
pub open spec fn pending(phase: Phase) -> ActionView {
    match phase {
        Phase::Start => ActionView::ReadSetting { key: SettingKey::SheetPath },
        Phase::Resolving { relative } => ActionView::Normalize { relative },
        Phase::Compiling { path } => ActionView::Compile {
            path,
            style: OutputStyle::Compressed,
            notice: compiling_notice(path),
        },
        Phase::Finishing { .. } => ActionView::ReadSetting { key: SettingKey::MaxAge },
        Phase::Published { .. } => ActionView::Serve,
        Phase::Failed { error } => ActionView::Abort { error },
    }
}

/// The sheet that a request finds in `phase`: the published one, or none.
pub open spec fn retrieved(phase: Phase) -> Option<SassSheetView> {
    match phase {
        Phase::Published { sheet } => Some(sheet),
        _ => None,
    }
}

/// The phase that `events`, taken in order, lead to from `phase`.
pub open spec fn run(phase: Phase, events: Seq<EventView>) -> Phase
    decreases events.len(),
{
    if events.len() == 0 {
        phase
    } else {
        next(run(phase, events.drop_last()), events.last())
    }
}

/// How many pieces of work lie behind `phase`. The two final phases count alike.
pub open spec fn progress(phase: Phase) -> nat {
    match phase {
        Phase::Start => 0,
        Phase::Resolving { .. } => 1,
        Phase::Compiling { .. } => 2,
        Phase::Finishing { .. } => 3,
        Phase::Published { .. } => 4,
        Phase::Failed { .. } => 4,
    }
}

#[derive(Debug)]
enum Stage {
    Start,
    Resolving { relative: String },
    Compiling { path: String },
    Finishing { path: String, content: String },
    Published { sheet: SassSheet },
    Failed { error: StartupError },
}

/// A startup under way, done or failed.
#[derive(Debug)]
pub struct Ignition {
    stage: Stage,
}

impl View for Ignition {
    type V = Phase;

    closed spec fn view(&self) -> Phase {
        match self.stage {
            Stage::Start => Phase::Start,
            Stage::Resolving { relative } => Phase::Resolving { relative: relative@ },
            Stage::Compiling { path } => Phase::Compiling { path: path@ },
            Stage::Finishing { path, content } => Phase::Finishing {
                path: path@,
                content: content@,
            },
            Stage::Published { sheet } => Phase::Published { sheet: sheet@ },
            Stage::Failed { error } => Phase::Failed { error: error@ },
        }
    }
}

impl Ignition {
    /// A startup at its beginning.
    pub fn new() -> (ignition: Ignition)
        ensures
            ignition@ == Phase::Start,
    {
        Ignition { stage: Stage::Start }
    }

    /// The piece of work that is due now.
    pub fn pending(&self) -> (action: Action)
        ensures
            action@ == pending(self@),
    {
        match &self.stage {
            Stage::Start => Action::ReadSetting { key: SettingKey::SheetPath },
            Stage::Resolving { relative } => Action::Normalize { relative: relative.clone() },
            Stage::Compiling { path } => {
                let mut notice = String::from_str("Compiling sass... file ");
                notice.append(path.as_str());
                Action::Compile { path: path.clone(), style: OutputStyle::Compressed, notice }
            },
            Stage::Finishing { .. } => Action::ReadSetting { key: SettingKey::MaxAge },
            Stage::Published { .. } => Action::Serve,
            Stage::Failed { error } => Action::Abort { error: error.clone() },
        }
    }

    /// Takes what came of the host's work and decides what follows. Gives the
    /// startup as it then stands, with the piece of work that is due next.
    /// An event that the startup does not wait for changes nothing.
    pub fn step(self, event: Event) -> (after: (Ignition, Action))
        ensures
            after.0@ == next(self@, event@),
            after.1@ == pending(after.0@),
    {
        let stage = match (self.stage, event) {
            (Stage::Start, Event::SheetPath(setting)) => match resolve_sheet_path(setting) {
                Ok(relative) => Stage::Resolving { relative },
                Err(error) => Stage::Failed { error },
            },
            (Stage::Resolving { relative }, Event::Normalized(outcome)) => match outcome {
                Ok(path) => Stage::Compiling { path },
                Err(reason) => Stage::Failed {
                    error: StartupError::NotFound { path: relative, reason },
                },
            },
            (Stage::Compiling { path }, Event::Compiled(outcome)) => match outcome {
                Ok(content) => Stage::Finishing { path, content },
                Err(diagnostic) => Stage::Failed { error: StartupError::Compile { diagnostic } },
            },
            (Stage::Finishing { path, content }, Event::MaxAge(setting)) => match resolve_max_age(
                setting,
            ) {
                Ok(seconds) => Stage::Published { sheet: SassSheet::new(content, seconds, path) },
                Err(error) => Stage::Failed { error },
            },
            (stage, _) => stage,
        };
        let ignition = Ignition { stage };
        let action = ignition.pending();
        (ignition, action)
    }

    /// The published sheet, for a request: there is one exactly when startup
    /// has succeeded.
    pub fn retrieve(&self) -> (found: Option<&SassSheet>)
        ensures
            match found {
                Some(sheet) => retrieved(self@) == Some(sheet@),
                None => retrieved(self@) is None,
            },
    {
        match &self.stage {
            Stage::Published { sheet } => Some(sheet),
            _ => None,
        }
    }

    /// Why startup failed, if it did.
    pub fn failure(&self) -> (found: Option<&StartupError>)
        ensures
            match found {
                Some(error) => self@ == (Phase::Failed { error: error@ }),
                None => !(self@ is Failed),
            },
    {
        match &self.stage {
            Stage::Failed { error } => Some(error),
            _ => None,
        }
    }
}

} // verus!
