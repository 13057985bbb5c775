//! The actions that a run asks of its caller, and the reports that the
//! caller gives back.

use vstd::prelude::*;
use vstd::string::*;
use crate::progress::{EventView, ProgressEvent};
use crate::workbook::{workbook_wf, SheetView, Workbook};

verus! {

/// What the caller of a run is asked to do.
#[derive(Debug)]
pub enum Action {
    /// Deliver the event to the observer.
    Emit(ProgressEvent),
    /// Check that the input file exists.
    CheckInput,
    /// Open the input file and read its sheets.
    OpenWorkbook,
    /// Create the output folder of this name, and its parents, beside the
    /// input file.
    CreateFolder { folder: String },
    /// Write a file of this name and content into the output folder.
    WriteFile { folder: String, name: String, content: String },
    /// Compress the output folder into an archive beside it.
    Archive { folder: String },
    /// Remove the output folder once it is archived.
    RemoveFolder { folder: String },
    /// Remove the output folder of a run that failed; whether that works
    /// does not matter.
    DiscardFolder { folder: String },
}

/// The mathematical content of an [`Action`].
pub enum ActionView {
    Emit(EventView),
    CheckInput,
    OpenWorkbook,
    CreateFolder { folder: Seq<char> },
    WriteFile { folder: Seq<char>, name: Seq<char>, content: Seq<char> },
    Archive { folder: Seq<char> },
    RemoveFolder { folder: Seq<char> },
    DiscardFolder { folder: Seq<char> },
}

impl View for Action {
    type V = ActionView;

    open spec fn view(&self) -> ActionView {
        match *self {
            Action::Emit(event) => ActionView::Emit(event@),
            Action::CheckInput => ActionView::CheckInput,
            Action::OpenWorkbook => ActionView::OpenWorkbook,
            Action::CreateFolder { folder } => ActionView::CreateFolder { folder: folder@ },
            Action::WriteFile { folder, name, content } => ActionView::WriteFile {
                folder: folder@,
                name: name@,
                content: content@,
            },
            Action::Archive { folder } => ActionView::Archive { folder: folder@ },
            Action::RemoveFolder { folder } => ActionView::RemoveFolder { folder: folder@ },
            Action::DiscardFolder { folder } => ActionView::DiscardFolder { folder: folder@ },
        }
    }
}

impl DeepView for Action {
    type V = ActionView;

    open spec fn deep_view(&self) -> ActionView {
        self@
    }
}

impl Action {
    /// A copy of this action.
    pub fn duplicate(&self) -> (copy: Action)
        ensures
            copy@ == self@,
    {
        match self {
            Action::Emit(event) => Action::Emit(event.duplicate()),
            Action::CheckInput => Action::CheckInput,
            Action::OpenWorkbook => Action::OpenWorkbook,
            Action::CreateFolder { folder } => Action::CreateFolder { folder: folder.clone() },
            Action::WriteFile { folder, name, content } => Action::WriteFile {
                folder: folder.clone(),
                name: name.clone(),
                content: content.clone(),
            },
            Action::Archive { folder } => Action::Archive { folder: folder.clone() },
            Action::RemoveFolder { folder } => Action::RemoveFolder { folder: folder.clone() },
            Action::DiscardFolder { folder } => Action::DiscardFolder { folder: folder.clone() },
        }
    }
}

/// How an action went.
#[derive(Debug)]
pub enum Report {
    /// It worked. The text shows the path that was created or written,
    /// where there is one.
    Done(String),
    /// It did not work; the text says why.
    Failed(String),
    /// The workbook was opened and read.
    Opened(Workbook),
    /// The archive was written: its path as shown, and in quotes.
    Archived { shown: String, quoted: String },
}

/// The mathematical content of a [`Report`].
pub enum ReportView {
    Done(Seq<char>),
    Failed(Seq<char>),
    Opened(Seq<SheetView>),
    Archived { shown: Seq<char>, quoted: Seq<char> },
}

impl View for Report {
    type V = ReportView;

    open spec fn view(&self) -> ReportView {
        match *self {
            Report::Done(shown) => ReportView::Done(shown@),
            Report::Failed(detail) => ReportView::Failed(detail@),
            Report::Opened(workbook) => ReportView::Opened(workbook@),
            Report::Archived { shown, quoted } => ReportView::Archived {
                shown: shown@,
                quoted: quoted@,
            },
        }
    }
}

impl Report {
    /// Whether the workbook of this report, if it carries one, can be
    /// normalized.
    pub open spec fn wf(&self) -> bool {
        match self@ {
            ReportView::Opened(book) => workbook_wf(book),
            _ => true,
        }
    }

    /// Tells whether the workbook of this report, if it carries one, can
    /// be normalized.
    pub fn is_wf(&self) -> (ok: bool)
        ensures
            ok == self.wf(),
    {
        match self {
            Report::Opened(workbook) => workbook.is_wf(),
            _ => true,
        }
    }
}

/// The path that a report shows; empty where it shows none.
pub open spec fn shown_of(report: ReportView) -> Seq<char> {
    match report {
        ReportView::Done(shown) => shown,
        ReportView::Archived { shown, quoted } => shown,
        _ => Seq::empty(),
    }
}

/// The path that a report quotes; a report without quotes gives what it
/// shows.
pub open spec fn quoted_of(report: ReportView) -> Seq<char> {
    match report {
        ReportView::Archived { shown, quoted } => quoted,
        _ => shown_of(report),
    }
}

/// The kind of action whose report a run waits for.
#[derive(Clone, Copy, Debug, PartialEq, Eq, Structural)]
pub enum Awaiting {
    Delivery,
    InputCheck,
    Workbook,
    Folder,
    File,
    Archive,
    Removal,
    Discard,
}

/// The kind of report that an action calls for.
pub open spec fn awaits(action: ActionView) -> Awaiting {
    match action {
        ActionView::Emit(_) => Awaiting::Delivery,
        ActionView::CheckInput => Awaiting::InputCheck,
        ActionView::OpenWorkbook => Awaiting::Workbook,
        ActionView::CreateFolder { .. } => Awaiting::Folder,
        ActionView::WriteFile { .. } => Awaiting::File,
        ActionView::Archive { .. } => Awaiting::Archive,
        ActionView::RemoveFolder { .. } => Awaiting::Removal,
        ActionView::DiscardFolder { .. } => Awaiting::Discard,
    }
}

/// Tells the kind of report that an action calls for.
pub fn kind_of(action: &Action) -> (kind: Awaiting)
    ensures
        kind == awaits(action@),
{
    match action {
        Action::Emit(_) => Awaiting::Delivery,
        Action::CheckInput => Awaiting::InputCheck,
        Action::OpenWorkbook => Awaiting::Workbook,
        Action::CreateFolder { .. } => Awaiting::Folder,
        Action::WriteFile { .. } => Awaiting::File,
        Action::Archive { .. } => Awaiting::Archive,
        Action::RemoveFolder { .. } => Awaiting::Removal,
        Action::DiscardFolder { .. } => Awaiting::Discard,
    }
}

/// The path that a report shows; empty where it shows none.
pub fn shown_text(report: &Report) -> (text: String)
    ensures
        text@ == shown_of(report@),
{
    match report {
        Report::Done(shown) => shown.clone(),
        Report::Archived { shown, quoted } => shown.clone(),
        _ => String::new(),
    }
}

/// The path that a report quotes; a report without quotes gives what it
/// shows.
pub fn quoted_text(report: &Report) -> (text: String)
    ensures
        text@ == quoted_of(report@),
{
    match report {
        Report::Archived { shown, quoted } => quoted.clone(),
        _ => shown_text(report),
    }
}

} // verus!
