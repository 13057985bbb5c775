//! The export run as a state machine. The machine decides what happens
//! next; its caller performs each action and reports how it went.

use vstd::prelude::*;
use vstd::string::*;
use crate::action::{
    awaits,
    kind_of,
    quoted_of,
    quoted_text,
    shown_of,
    shown_text,
    Action,
    ActionView,
    Awaiting,
    Report,
    ReportView,
};
use crate::error::{error_message, ErrorView, ExportError};
use crate::plan::{ending_view, make_plan, plan_of};
use crate::progress::{
    compressed,
    failure,
    file_exported,
    folder_created,
    opened,
    opening,
    removal_failed,
    started,
    summary,
    summary_string,
    EventView,
    ProgressEvent,
};

verus! {

/// The state of a run.
pub struct RunView {
    /// The path of the input file, as shown to the user.
    pub path: Seq<char>,
    /// The stem of the input file's name.
    pub stem: Seq<char>,
    /// The kind of the action that was handed out last.
    pub awaiting: Awaiting,
    /// The actions that remain, next one first.
    pub todo: Seq<ActionView>,
    /// How the run ends once nothing remains.
    pub ending: Result<int, ErrorView>,
    /// The archive's path in quotes, once the archive is written.
    pub archive: Seq<char>,
}

/// What a run yields when it is told how its last action went.
pub enum TurnView {
    /// The run goes on: its next state, and the action to perform.
    Perform(RunView, ActionView),
    /// The run is over: its summary, or why it failed.
    Finished(Result<Seq<char>, ErrorView>),
}

/// Takes the next action off the list, or ends the run where none remains.
pub open spec fn proceed(run: RunView) -> TurnView {
    if run.todo.len() > 0 {
        TurnView::Perform(
            RunView { awaiting: awaits(run.todo[0]), todo: run.todo.drop_first(), ..run },
            run.todo[0],
        )
    } else {
        match run.ending {
            Ok(files) => TurnView::Finished(Ok(summary(files, run.archive))),
            Err(e) => TurnView::Finished(Err(e)),
        }
    }
}

/// Goes on with an event that is not on the list.
pub open spec fn interpose(run: RunView, event: EventView) -> TurnView {
    TurnView::Perform(RunView { awaiting: Awaiting::Delivery, ..run }, ActionView::Emit(event))
}

/// The state of a run that has just begun on the file at `path`, whose
/// name has the stem `stem`: the start was announced; the input is checked
/// and opened next. Until the workbook is open, a run that came to the end
/// of its actions would end as a failed open.
pub open spec fn initial(path: Seq<char>, stem: Seq<char>) -> RunView {
    RunView {
        path,
        stem,
        awaiting: Awaiting::Delivery,
        todo: seq![
            ActionView::CheckInput,
            ActionView::Emit(opening()),
            ActionView::OpenWorkbook,
        ],
        ending: Err(ErrorView::OpenFailure { detail: Seq::empty() }),
        archive: Seq::empty(),
    }
}

/// How a run reacts to the report on its last action. `stamp` is the time
/// stamp that names the output folder, should this report open the
/// workbook.
///
/// An event that could not be delivered ends the run. A missing input file
/// is announced and ends the run. An opened workbook is announced and sets
/// the plan for the rest of the run; a failed open ends the run, and a
/// report that carries no workbook counts as a failed open. A folder,
/// a file or an archive that was made is announced; one that could not be
/// made ends the run. An output folder that could not be removed raises a
/// warning. What becomes of a discarded folder does not matter.
pub open spec fn react(run: RunView, report: ReportView, stamp: Seq<char>) -> TurnView {
    match run.awaiting {
        Awaiting::Delivery => match report {
            ReportView::Failed(detail) => TurnView::Finished(
                Err(ErrorView::EventDeliveryFailure { detail }),
            ),
            _ => proceed(run),
        },
        Awaiting::InputCheck => match report {
            ReportView::Failed(_) => {
                let e = ErrorView::FileNotFound { path: run.path };
                interpose(
                    RunView { todo: Seq::empty(), ending: Err(e), ..run },
                    failure(error_message(e)),
                )
            },
            _ => proceed(run),
        },
        Awaiting::Workbook => match report {
            ReportView::Opened(book) => {
                let plan = plan_of(book, run.stem, stamp);
                interpose(RunView { todo: plan.actions, ending: plan.ending, ..run }, opened())
            },
            ReportView::Failed(detail) => TurnView::Finished(Err(ErrorView::OpenFailure { detail })),
            _ => TurnView::Finished(Err(ErrorView::OpenFailure { detail: Seq::empty() })),
        },
        Awaiting::Folder => match report {
            ReportView::Failed(detail) => TurnView::Finished(
                Err(ErrorView::IoFailure { detail: "创建目录失败: "@ + detail }),
            ),
            _ => interpose(run, folder_created(shown_of(report))),
        },
        Awaiting::File => match report {
            ReportView::Failed(detail) => TurnView::Finished(Err(ErrorView::IoFailure { detail })),
            _ => interpose(run, file_exported(shown_of(report))),
        },
        Awaiting::Archive => match report {
            ReportView::Failed(detail) => TurnView::Finished(Err(ErrorView::IoFailure { detail })),
            _ => interpose(
                RunView { archive: quoted_of(report), ..run },
                compressed(shown_of(report)),
            ),
        },
        Awaiting::Removal => match report {
            ReportView::Failed(detail) => interpose(run, removal_failed(detail)),
            _ => proceed(run),
        },
        Awaiting::Discard => proceed(run),
    }
}

/// The mathematical content of the result of a run.
pub open spec fn outcome_view(outcome: Result<String, ExportError>) -> Result<
    Seq<char>,
    ErrorView,
> {
    match outcome {
        Ok(text) => Ok(text@),
        Err(e) => Err(e@),
    }
}

/// The pattern by which a time stamp is written: the date and the time of
/// day as digits, with an underscore between them.
pub open spec fn stamp_pattern() -> Seq<char> {
    "%Y%m%d_%H%M%S"@
}

/// Calls `chrono::Local::now` and formats the time with `pattern`.
///
/// Trusted: nothing is claimed of the result, which depends on the clock.
/// The precondition keeps the pattern one that chrono knows, so the call
/// does not panic.
#[verifier::external_body]
fn local_stamp(pattern: &str) -> (stamp: String)
    requires
        pattern@ == stamp_pattern(),
{
    chrono::Local::now().format(pattern).to_string()
}

/// An export run: what it has left to do, and what it waits for.
#[derive(Debug)]
pub struct ExportRun {
    path: String,
    stem: String,
    awaiting: Awaiting,
    script: Vec<Action>,
    cursor: usize,
    ending: Result<usize, ExportError>,
    archive: String,
}

/// What a run yields when it is told how its last action went.
#[derive(Debug)]
pub enum Turn {
    /// The run goes on: its next state, and the action to perform.
    Perform(ExportRun, Action),
    /// The run is over: its summary, or why it failed.
    Finished(Result<String, ExportError>),
}

impl View for ExportRun {
    type V = RunView;

    closed spec fn view(&self) -> RunView {
        RunView {
            path: self.path@,
            stem: self.stem@,
            awaiting: self.awaiting,
            todo: if self.cursor <= self.script.len() {
                self.script.deep_view().subrange(self.cursor as int, self.script.len() as int)
            } else {
                Seq::empty()
            },
            ending: ending_view(self.ending),
            archive: self.archive@,
        }
    }
}

impl View for Turn {
    type V = TurnView;

    open spec fn view(&self) -> TurnView {
        match *self {
            Turn::Perform(run, action) => TurnView::Perform(run@, action@),
            Turn::Finished(outcome) => TurnView::Finished(outcome_view(outcome)),
        }
    }
}

impl ExportRun {
    /// Begins a run on the file at `path`, whose name has the stem `stem`.
    /// Returns the run and its first action.
    pub fn begin(path: String, stem: String) -> (start: (ExportRun, Action))
        ensures
            start.0@ == initial(path@, stem@),
            start.1@ == ActionView::Emit(started(path@)),
    {
        let first = Action::Emit(ProgressEvent::started(path.as_str()));
        let mut script: Vec<Action> = Vec::new();
        script.push(Action::CheckInput);
        script.push(Action::Emit(ProgressEvent::opening()));
        script.push(Action::OpenWorkbook);
        let run = ExportRun {
            path,
            stem,
            awaiting: Awaiting::Delivery,
            script,
            cursor: 0,
            ending: Err(ExportError::OpenFailure { detail: String::new() }),
            archive: String::new(),
        };
        assert(run@.todo =~= initial(path@, stem@).todo);
        (run, first)
    }

    fn proceed(self) -> (turn: Turn)
        ensures
            turn@ == proceed(self@),
    {
        let ghost before = self@;
        let ExportRun { path, stem, awaiting, script, cursor, ending, archive } = self;
        if cursor < script.len() {
            let action = script[cursor].duplicate();
            assert(before.todo[0] == script@[cursor as int]@);
            let next = ExportRun {
                path,
                stem,
                awaiting: kind_of(&action),
                script,
                cursor: cursor + 1,
                ending,
                archive,
            };
            assert(next@.todo =~= before.todo.drop_first());
            Turn::Perform(next, action)
        } else {
            assert(before.todo.len() == 0);
            match ending {
                Ok(files) => Turn::Finished(Ok(summary_string(files, archive.as_str()))),
                Err(e) => Turn::Finished(Err(e)),
            }
        }
    }

    fn interpose(self, event: ProgressEvent) -> (turn: Turn)
        ensures
            turn@ == interpose(self@, event@),
    {
        let ExportRun { path, stem, awaiting, script, cursor, ending, archive } = self;
        let next = ExportRun {
            path,
            stem,
            awaiting: Awaiting::Delivery,
            script,
            cursor,
            ending,
            archive,
        };
        Turn::Perform(next, Action::Emit(event))
    }

    /// Tells the run how its last action went; `stamp` is the time stamp
    /// that names the output folder, should this report open the workbook.
    /// Returns what to do next, or how the run ended.
    pub fn react(self, report: Report, stamp: &str) -> (turn: Turn)
        requires
            report.wf(),
        ensures
            turn@ == react(self@, report@, stamp@),
    {
        let ghost before = self@;
        match self.awaiting {
            Awaiting::Delivery => match report {
                Report::Failed(detail) => Turn::Finished(
                    Err(ExportError::EventDeliveryFailure { detail }),
                ),
                _ => self.proceed(),
            },
            Awaiting::InputCheck => match report {
                Report::Failed(_) => {
                    let ExportRun { path, stem, awaiting, script, cursor, ending, archive } = self;
                    let e = ExportError::FileNotFound { path: path.clone() };
                    let event = ProgressEvent::input_missing(e.message());
                    let next = ExportRun {
                        path,
                        stem,
                        awaiting,
                        script: Vec::new(),
                        cursor: 0,
                        ending: Err(e),
                        archive,
                    };
                    assert(next@.todo =~= Seq::<ActionView>::empty());
                    next.interpose(event)
                },
                _ => self.proceed(),
            },
            Awaiting::Workbook => match report {
                Report::Opened(workbook) => {
                    let ExportRun { path, stem, awaiting, script, cursor, ending, archive } = self;
                    let (actions, end) = make_plan(&workbook, stem.as_str(), stamp);
                    let next = ExportRun {
                        path,
                        stem,
                        awaiting,
                        script: actions,
                        cursor: 0,
                        ending: end,
                        archive,
                    };
                    assert(next@.todo =~= plan_of(workbook@, before.stem, stamp@).actions);
                    next.interpose(ProgressEvent::opened())
                },
                Report::Failed(detail) => Turn::Finished(Err(ExportError::OpenFailure { detail })),
                _ => Turn::Finished(Err(ExportError::OpenFailure { detail: String::new() })),
            },
            Awaiting::Folder => match report {
                Report::Failed(detail) => Turn::Finished(
                    Err(
                        ExportError::IoFailure {
                            detail: String::from_str("创建目录失败: ").concat(detail.as_str()),
                        },
                    ),
                ),
                _ => {
                    let shown = shown_text(&report);
                    self.interpose(ProgressEvent::folder_created(shown.as_str()))
                },
            },
            Awaiting::File => match report {
                Report::Failed(detail) => Turn::Finished(Err(ExportError::IoFailure { detail })),
                _ => {
                    let shown = shown_text(&report);
                    self.interpose(ProgressEvent::file_exported(shown.as_str()))
                },
            },
            Awaiting::Archive => match report {
                Report::Failed(detail) => Turn::Finished(Err(ExportError::IoFailure { detail })),
                _ => {
                    let shown = shown_text(&report);
                    let quoted = quoted_text(&report);
                    let ExportRun { path, stem, awaiting, script, cursor, ending, archive } = self;
                    let next = ExportRun {
                        path,
                        stem,
                        awaiting,
                        script,
                        cursor,
                        ending,
                        archive: quoted,
                    };
                    next.interpose(ProgressEvent::compressed(shown.as_str()))
                },
            },
            Awaiting::Removal => match report {
                Report::Failed(detail) => self.interpose(
                    ProgressEvent::removal_failed(detail.as_str()),
                ),
                _ => self.proceed(),
            },
            Awaiting::Discard => self.proceed(),
        }
    }

    /// Tells the run how its last action went. Returns what to do next, or
    /// how the run ended.
    ///
    /// This is [`ExportRun::react`] with the time stamp of the moment at
    /// which the workbook's report arrives.
    pub fn advance(self, report: Report) -> (turn: Turn)
        requires
            report.wf(),
        ensures
            exists|stamp: Seq<char>| turn@ == react(self@, report@, stamp),
    {
        let stamp = match report {
            Report::Opened(_) => local_stamp("%Y%m%d_%H%M%S"),
            _ => String::new(),
        };
        let turn = self.react(report, stamp.as_str());
        assert(turn@ == react(self@, report@, stamp@));
        turn
    }
}

} // verus!
