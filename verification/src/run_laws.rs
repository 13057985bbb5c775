//! What holds of every run, whatever its caller reports.

use vstd::prelude::*;
use crate::assemble::{collect_upto, language_pass, scan_rows};
use crate::error::{control_sheet_name, ControlSheet, ErrorView};
use crate::progress::opened;
use crate::registry::{missing_control, read_registries, SheetConfigView};
use crate::action::{ActionView, Awaiting, ReportView};
use crate::plan::{emits, folder_name, language_script, languages_script, plan_of};
use crate::run::{initial, react, RunView, TurnView};
use crate::workbook::{find_sheet, has_sheet, lemma_find_sheet_iff_has, Grid, SheetView};

verus! {

/// A report, and the time stamp of the moment at which it arrives.
pub type Input = (ReportView, Seq<char>);

/// The actions that a run hands out while it is fed the inputs in turn,
/// from the first reaction on, until it ends or the inputs run out.
pub open spec fn trace(run: RunView, inputs: Seq<Input>) -> Seq<ActionView>
    decreases inputs.len(),
{
    if inputs.len() == 0 {
        Seq::empty()
    } else {
        match react(run, inputs[0].0, inputs[0].1) {
            TurnView::Finished(_) => Seq::empty(),
            TurnView::Perform(next, action) => seq![action] + trace(next, inputs.drop_first()),
        }
    }
}

/// How a run ends while it is fed the inputs in turn; `None` where the
/// inputs run out first.
pub open spec fn result(run: RunView, inputs: Seq<Input>) -> Option<Result<Seq<char>, ErrorView>>
    decreases inputs.len(),
{
    if inputs.len() == 0 {
        None
    } else {
        match react(run, inputs[0].0, inputs[0].1) {
            TurnView::Finished(outcome) => Some(outcome),
            TurnView::Perform(next, action) => result(next, inputs.drop_first()),
        }
    }
}

/// Whether an action puts something on disk.
pub open spec fn makes_output(action: ActionView) -> bool {
    action is CreateFolder || action is WriteFile || action is Archive
}

/// Whether none of the actions puts something on disk.
pub open spec fn no_output(actions: Seq<ActionView>) -> bool {
    forall|k: int| 0 <= k < actions.len() ==> !makes_output(#[trigger] actions[k])
}

/// Whether none of the actions writes the archive.
pub open spec fn no_archive(actions: Seq<ActionView>) -> bool {
    forall|k: int| 0 <= k < actions.len() ==> !(#[trigger] actions[k] is Archive)
}

/// Whether none of the actions opens the workbook.
pub open spec fn no_opening(actions: Seq<ActionView>) -> bool {
    forall|k: int| 0 <= k < actions.len() ==> !(#[trigger] actions[k] is OpenWorkbook)
}

/// Whether a workbook lacks one of the two control sheets.
pub open spec fn lacks_control_sheet(book: Seq<SheetView>) -> bool {
    ||| !has_sheet(book, control_sheet_name(ControlSheet::Languages))
    ||| !has_sheet(book, control_sheet_name(ControlSheet::Sheets))
}

/// Whether every workbook among the inputs lacks a control sheet.
pub open spec fn all_lack_control_sheet(inputs: Seq<Input>) -> bool {
    forall|i: int|
        0 <= i < inputs.len() ==> match (#[trigger] inputs[i]).0 {
            ReportView::Opened(book) => lacks_control_sheet(book),
            _ => true,
        }
}

/// Whether something ends with a placeholder failure.
pub open spec fn is_unbalanced<T>(ending: Result<T, ErrorView>) -> bool {
    match ending {
        Err(e) => e is PlaceholderError,
        Ok(_) => false,
    }
}

/// A scan fails only on a value whose braces do not balance.
pub proof fn lemma_scan_failure_kind(
    sheet: Seq<char>,
    grid: Grid,
    code: Seq<char>,
    col: int,
    n: int,
)
    ensures
        scan_rows(sheet, grid, code, col, n).failure matches Some(e) ==> e is PlaceholderError,
    decreases n,
{
    if n > 1 {
        lemma_scan_failure_kind(sheet, grid, code, col, n - 1);
    }
}

/// A pass fails only on a value whose braces do not balance.
pub proof fn lemma_pass_failure_kind(
    book: Seq<SheetView>,
    sheets: Seq<SheetConfigView>,
    code: Seq<char>,
    n: int,
)
    ensures
        collect_upto(book, sheets, code, n).failure matches Some(e) ==> e is PlaceholderError,
    decreases n,
{
    if n > 0 {
        lemma_pass_failure_kind(book, sheets, code, n - 1);
        let before = collect_upto(book, sheets, code, n - 1);
        let config = sheets[n - 1];
        if before.failure is None {
            match find_sheet(book, config.name) {
                None => {},
                Some(i) => match book[i].content {
                    crate::workbook::ContentView::Unreadable(_) => {},
                    crate::workbook::ContentView::Rows(grid) => match crate::assemble::language_column(
                        grid,
                        code,
                    ) {
                        None => {},
                        Some(col) => {
                            lemma_scan_failure_kind(config.name, grid, code, col, grid.len() as int);
                        },
                    },
                },
            }
        }
    }
}

/// What the part of a run that exports the languages is made of: it
/// delivers events, writes files and, where a language fails, ends by
/// discarding the output folder; it fails exactly where one of the
/// languages does.
pub proof fn lemma_languages_script_shape(
    book: Seq<SheetView>,
    sheets: Seq<SheetConfigView>,
    languages: Seq<Seq<char>>,
    folder: Seq<char>,
    n: int,
)
    requires
        0 <= n <= languages.len(),
    ensures
        ({
            let script = languages_script(book, sheets, languages, folder, n);
            &&& forall|k: int|
                0 <= k < script.actions.len() ==> {
                    ||| #[trigger] script.actions[k] is Emit
                    ||| script.actions[k] is WriteFile
                    ||| script.actions[k] is DiscardFolder
                }
            &&& script.failure matches Some(e) ==> {
                &&& e is PlaceholderError
                &&& script.actions.len() > 0
                &&& script.actions.last() == (ActionView::DiscardFolder { folder })
            }
            &&& script.failure is Some <==> exists|l: int|
                0 <= l < n && (#[trigger] language_pass(book, sheets, languages[l])).failure is Some
        }),
    decreases n,
{
    if n > 0 {
        lemma_languages_script_shape(book, sheets, languages, folder, n - 1);
        let before = languages_script(book, sheets, languages, folder, n - 1);
        let script = languages_script(book, sheets, languages, folder, n);
        if before.failure is None {
            let next = language_script(book, sheets, languages[n - 1], folder);
            let pass = language_pass(book, sheets, languages[n - 1]);
            lemma_pass_failure_kind(book, sheets, languages[n - 1], sheets.len() as int);
            assert forall|k: int| 0 <= k < script.actions.len() implies {
                ||| #[trigger] script.actions[k] is Emit
                ||| script.actions[k] is WriteFile
                ||| script.actions[k] is DiscardFolder
            } by {
                if k >= before.actions.len() {
                    let j = k - before.actions.len();
                    assert(script.actions[k] == next.actions[j]);
                    if 1 <= j < next.actions.len() - 1 {
                        assert(next.actions[j] == emits(pass.events)[j - 1]);
                    }
                } else {
                    assert(script.actions[k] == before.actions[k]);
                }
            }
            if script.failure is Some {
                assert(language_pass(book, sheets, languages[n - 1]).failure is Some);
            } else {
                assert forall|l: int| 0 <= l < n implies (#[trigger] language_pass(
                    book,
                    sheets,
                    languages[l],
                )).failure is None by {
                    if l < n - 1 {
                    }
                }
            }
        } else {
            let l = choose|l: int|
                0 <= l < n - 1 && (#[trigger] language_pass(book, sheets, languages[l])).failure
                    is Some;
            assert(0 <= l < n && language_pass(book, sheets, languages[l]).failure is Some);
        }
    }
}

/// What a plan is made of. It never opens the workbook again. A plan that
/// ends in a failure writes no archive; one that ends in a placeholder
/// failure has the discarding of the output folder as its last action. For
/// a workbook without a control sheet the plan holds no action at all and
/// ends with that sheet reported missing.
pub proof fn lemma_plan_shape(book: Seq<SheetView>, stem: Seq<char>, stamp: Seq<char>)
    ensures
        ({
            let plan = plan_of(book, stem, stamp);
            &&& no_opening(plan.actions)
            &&& plan.ending is Err ==> no_archive(plan.actions)
            &&& is_unbalanced(plan.ending) ==> {
                &&& plan.actions.len() > 0
                &&& plan.actions.last() is DiscardFolder
            }
            &&& lacks_control_sheet(book) ==> {
                &&& plan.actions.len() == 0
                &&& plan.ending == Err::<int, ErrorView>(
                    ErrorView::MissingControlSheet { control: missing_control(book)->0 },
                )
            }
        }),
{
    let plan = plan_of(book, stem, stamp);
    lemma_find_sheet_iff_has(book, control_sheet_name(ControlSheet::Languages));
    lemma_find_sheet_iff_has(book, control_sheet_name(ControlSheet::Sheets));
    match read_registries(book) {
        Err(e) => {},
        Ok((languages, sheets)) => {
            let folder = folder_name(stem, stamp);
            let body = languages_script(book, sheets, languages, folder, languages.len() as int);
            lemma_languages_script_shape(
                book,
                sheets,
                languages,
                folder,
                languages.len() as int,
            );
            assert forall|k: int| 0 <= k < plan.actions.len() implies !(
            #[trigger] plan.actions[k] is OpenWorkbook) by {
                if 2 <= k < 2 + body.actions.len() {
                    assert(plan.actions[k] == body.actions[k - 2]);
                }
            }
            if plan.ending is Err {
                assert forall|k: int| 0 <= k < plan.actions.len() implies !(
                #[trigger] plan.actions[k] is Archive) by {
                    if 2 <= k {
                        assert(plan.actions[k] == body.actions[k - 2]);
                    }
                }
                assert(plan.actions.last() == body.actions.last());
            }
        },
    }
}

/// The folder that an action works on, if it works on one.
pub open spec fn folder_of(action: ActionView) -> Option<Seq<char>> {
    match action {
        ActionView::CreateFolder { folder } => Some(folder),
        ActionView::WriteFile { folder, name, content } => Some(folder),
        ActionView::Archive { folder } => Some(folder),
        ActionView::RemoveFolder { folder } => Some(folder),
        ActionView::DiscardFolder { folder } => Some(folder),
        _ => None,
    }
}

/// The part of a run that exports the languages works on the run's own
/// folder alone.
pub proof fn lemma_languages_script_folder(
    book: Seq<SheetView>,
    sheets: Seq<SheetConfigView>,
    languages: Seq<Seq<char>>,
    folder: Seq<char>,
    n: int,
)
    requires
        0 <= n <= languages.len(),
    ensures
        forall|k: int|
            0 <= k < languages_script(book, sheets, languages, folder, n).actions.len() ==> {
                let action = #[trigger] languages_script(book, sheets, languages, folder, n).actions[k];
                folder_of(action) is Some ==> folder_of(action) == Some(folder)
            },
    decreases n,
{
    if n > 0 {
        lemma_languages_script_folder(book, sheets, languages, folder, n - 1);
        let before = languages_script(book, sheets, languages, folder, n - 1);
        let script = languages_script(book, sheets, languages, folder, n);
        if before.failure is None {
            let next = language_script(book, sheets, languages[n - 1], folder);
            let pass = language_pass(book, sheets, languages[n - 1]);
            assert forall|k: int| 0 <= k < script.actions.len() implies {
                let action = #[trigger] script.actions[k];
                folder_of(action) is Some ==> folder_of(action) == Some(folder)
            } by {
                if k >= before.actions.len() {
                    let j = k - before.actions.len();
                    assert(script.actions[k] == next.actions[j]);
                    if 1 <= j < next.actions.len() - 1 {
                        assert(next.actions[j] == emits(pass.events)[j - 1]);
                    }
                } else {
                    assert(script.actions[k] == before.actions[k]);
                }
            }
        }
    }
}

/// A plan works on one folder alone, the one named after the input file
/// and the time stamp; it creates that folder before it writes any file
/// into it, and writes the archive only after the last file.
pub proof fn law_plan_keeps_to_its_folder(book: Seq<SheetView>, stem: Seq<char>, stamp: Seq<char>)
    ensures
        ({
            let actions = plan_of(book, stem, stamp).actions;
            &&& forall|k: int|
                0 <= k < actions.len() && folder_of(#[trigger] actions[k]) is Some ==> folder_of(
                    actions[k],
                ) == Some(folder_name(stem, stamp))
            &&& forall|k: int|
                0 <= k < actions.len() && #[trigger] actions[k] is WriteFile ==> 1 < k && actions[1]
                    is CreateFolder
            &&& forall|k: int, j: int|
                0 <= k < actions.len() && 0 <= j < actions.len() && #[trigger] actions[k]
                    is Archive && #[trigger] actions[j] is WriteFile ==> j < k
        }),
{
    let plan = plan_of(book, stem, stamp);
    let actions = plan.actions;
    match read_registries(book) {
        Err(e) => {},
        Ok((languages, sheets)) => {
            let folder = folder_name(stem, stamp);
            let body = languages_script(book, sheets, languages, folder, languages.len() as int);
            lemma_languages_script_shape(
                book,
                sheets,
                languages,
                folder,
                languages.len() as int,
            );
            lemma_languages_script_folder(
                book,
                sheets,
                languages,
                folder,
                languages.len() as int,
            );
            assert forall|k: int| 2 <= k < 2 + body.actions.len() implies #[trigger] actions[k]
                == body.actions[k - 2] by {}
            assert forall|k: int|
                0 <= k < actions.len() && folder_of(#[trigger] actions[k]) is Some implies folder_of(
                actions[k],
            ) == Some(folder) by {
                if 2 <= k < 2 + body.actions.len() {
                    assert(actions[k] == body.actions[k - 2]);
                }
            }
            assert forall|k: int|
                0 <= k < actions.len() && #[trigger] actions[k] is WriteFile implies 1 < k
                && actions[1] is CreateFolder by {
                if 2 <= k < 2 + body.actions.len() {
                    assert(actions[k] == body.actions[k - 2]);
                }
            }
            assert forall|k: int, j: int|
                0 <= k < actions.len() && 0 <= j < actions.len() && #[trigger] actions[k]
                    is Archive && #[trigger] actions[j] is WriteFile implies j < k by {
                if 2 <= k < 2 + body.actions.len() {
                    assert(actions[k] == body.actions[k - 2]);
                }
                if 2 <= j < 2 + body.actions.len() {
                    assert(actions[j] == body.actions[j - 2]);
                }
            }
        },
    }
}

/// Whether a run will put nothing on disk and cannot succeed, as long as
/// every workbook it is handed lacks a control sheet.
pub open spec fn barren(run: RunView) -> bool {
    &&& no_output(run.todo)
    &&& run.ending is Err
}

/// A run that is barren stays so, hands out no action that puts something
/// on disk, and does not succeed.
pub proof fn lemma_barren_trace(run: RunView, inputs: Seq<Input>)
    requires
        barren(run),
        all_lack_control_sheet(inputs),
    ensures
        no_output(trace(run, inputs)),
        !(result(run, inputs) matches Some(Ok(_))),
    decreases inputs.len(),
{
    if inputs.len() > 0 {
        let rest = inputs.drop_first();
        assert forall|i: int| 0 <= i < rest.len() implies match (#[trigger] rest[i]).0 {
            ReportView::Opened(book) => lacks_control_sheet(book),
            _ => true,
        } by {
            assert(rest[i] == inputs[i + 1]);
        }
        match react(run, inputs[0].0, inputs[0].1) {
            TurnView::Finished(_) => {},
            TurnView::Perform(next, action) => {
                if let ReportView::Opened(book) = inputs[0].0 {
                    lemma_plan_shape(book, run.stem, inputs[0].1);
                }
                assert(!makes_output(action)) by {
                    if run.todo.len() > 0 {
                        assert(!makes_output(run.todo[0]));
                    }
                }
                assert(no_output(next.todo)) by {
                    assert forall|k: int| 0 <= k < next.todo.len() implies !makes_output(
                        #[trigger] next.todo[k],
                    ) by {
                        if next.todo == run.todo.drop_first() && run.todo.len() > 0 {
                            assert(next.todo[k] == run.todo[k + 1]);
                        }
                    }
                }
                lemma_barren_trace(next, rest);
                let tail = trace(next, rest);
                assert forall|k: int| 0 <= k < trace(run, inputs).len() implies !makes_output(
                    #[trigger] trace(run, inputs)[k],
                ) by {
                    if k > 0 {
                        assert(trace(run, inputs)[k] == tail[k - 1]);
                    }
                }
            },
        }
    }
}

/// A run on a workbook that lacks a control sheet creates no folder, writes
/// no file and no archive, and does not succeed, whatever its caller
/// reports.
pub proof fn law_missing_control_sheet_creates_nothing(
    path: Seq<char>,
    stem: Seq<char>,
    inputs: Seq<Input>,
)
    requires
        all_lack_control_sheet(inputs),
    ensures
        no_output(trace(initial(path, stem), inputs)),
        !(result(initial(path, stem), inputs) matches Some(Ok(_))),
{
    lemma_barren_trace(initial(path, stem), inputs);
}

/// Once the workbook is opened and found to lack a control sheet, the run
/// announces the opening and then fails with that sheet reported missing,
/// unless the announcement cannot be delivered.
pub proof fn law_missing_control_sheet_fails(
    run: RunView,
    book: Seq<SheetView>,
    stamp: Seq<char>,
    report: ReportView,
    later: Seq<char>,
)
    requires
        run.awaiting == Awaiting::Workbook,
        lacks_control_sheet(book),
        !(report is Failed),
    ensures
        missing_control(book) is Some,
        match react(run, ReportView::Opened(book), stamp) {
            TurnView::Perform(next, action) => {
                &&& action == ActionView::Emit(opened())
                &&& react(next, report, later) == TurnView::Finished(
                    Err(ErrorView::MissingControlSheet { control: missing_control(book)->0 }),
                )
            },
            TurnView::Finished(_) => false,
        },
{
    lemma_plan_shape(book, run.stem, stamp);
}

/// Whether a run has its plan and cannot end with a placeholder failure.
pub open spec fn settled(run: RunView) -> bool {
    &&& !is_unbalanced(run.ending)
    &&& no_opening(run.todo)
    &&& run.awaiting != Awaiting::Workbook
}

/// Whether a run has its plan and is bound to end with a placeholder
/// failure: it writes no archive, and the last thing it does is to discard
/// the output folder.
pub open spec fn doomed(run: RunView) -> bool {
    &&& is_unbalanced(run.ending)
    &&& no_opening(run.todo)
    &&& no_archive(run.todo)
    &&& run.awaiting != Awaiting::Workbook
    &&& if run.todo.len() > 0 {
        run.todo.last() is DiscardFolder
    } else {
        run.awaiting == Awaiting::Discard
    }
}

/// Whether a run may still open its workbook: so far it plans no archive
/// and no placeholder failure.
pub open spec fn fresh(run: RunView) -> bool {
    &&& !is_unbalanced(run.ending)
    &&& no_archive(run.todo)
}

/// A settled run does not end with a placeholder failure.
pub proof fn lemma_settled_result(run: RunView, inputs: Seq<Input>)
    requires
        settled(run),
    ensures
        match result(run, inputs) {
            Some(outcome) => !is_unbalanced(outcome),
            None => true,
        },
    decreases inputs.len(),
{
    if inputs.len() > 0 {
        match react(run, inputs[0].0, inputs[0].1) {
            TurnView::Finished(_) => {},
            TurnView::Perform(next, action) => {
                assert(no_opening(next.todo)) by {
                    assert forall|k: int| 0 <= k < next.todo.len() implies !(
                    #[trigger] next.todo[k] is OpenWorkbook) by {
                        if next.todo == run.todo.drop_first() && run.todo.len() > 0 {
                            assert(next.todo[k] == run.todo[k + 1]);
                        }
                    }
                }
                if run.todo.len() > 0 {
                    assert(!(run.todo[0] is OpenWorkbook));
                }
                lemma_settled_result(next, inputs.drop_first());
            },
        }
    }
}

/// Where a doomed run ends with a placeholder failure, it has written no
/// archive, and the last action it handed out, if it still had any to
/// hand out, discarded the output folder.
pub proof fn lemma_doomed_trace(run: RunView, inputs: Seq<Input>)
    requires
        doomed(run),
        result(run, inputs) is Some,
        is_unbalanced(result(run, inputs)->0),
    ensures
        no_archive(trace(run, inputs)),
        run.todo.len() > 0 ==> trace(run, inputs).len() > 0 && trace(run, inputs).last()
            is DiscardFolder,
        run.todo.len() == 0 ==> trace(run, inputs).len() == 0,
    decreases inputs.len(),
{
    if inputs.len() > 0 {
        let rest = inputs.drop_first();
        match react(run, inputs[0].0, inputs[0].1) {
            TurnView::Finished(_) => {},
            TurnView::Perform(next, action) => {
                let tail = trace(next, rest);
                let all = trace(run, inputs);
                if run.todo.len() > 0 {
                    assert(!(run.todo[0] is OpenWorkbook));
                    assert(!(run.todo[0] is Archive));
                }
                assert(!(action is Archive));
                assert(no_opening(next.todo) && no_archive(next.todo)) by {
                    assert forall|k: int| 0 <= k < next.todo.len() implies !(
                    #[trigger] next.todo[k] is OpenWorkbook) && !(next.todo[k] is Archive) by {
                        if next.todo == run.todo.drop_first() && run.todo.len() > 0 {
                            assert(next.todo[k] == run.todo[k + 1]);
                        }
                    }
                }
                if is_unbalanced(next.ending) {
                    assert(next.ending == run.ending);
                    if next.todo.len() > 0 {
                        if next.todo == run.todo.drop_first() {
                            assert(next.todo.last() == run.todo.last());
                        }
                    }
                    assert(doomed(next));
                    lemma_doomed_trace(next, rest);
                    assert(all.len() > 0);
                    if tail.len() > 0 {
                        assert(all.last() == tail.last());
                    } else {
                        assert(all.last() == action);
                    }
                    assert forall|k: int| 0 <= k < all.len() implies !(#[trigger] all[k]
                        is Archive) by {
                        if k > 0 {
                            assert(all[k] == tail[k - 1]);
                        }
                    }
                } else {
                    assert(settled(next));
                    lemma_settled_result(next, rest);
                }
            },
        }
    }
}

/// Where a run that has not opened its workbook yet ends with a
/// placeholder failure, it has written no archive, and the last action it
/// handed out discarded the output folder.
pub proof fn lemma_fresh_trace(run: RunView, inputs: Seq<Input>)
    requires
        fresh(run),
        result(run, inputs) is Some,
        is_unbalanced(result(run, inputs)->0),
    ensures
        no_archive(trace(run, inputs)),
        trace(run, inputs).len() > 0,
        trace(run, inputs).last() is DiscardFolder,
    decreases inputs.len(),
{
    if inputs.len() > 0 {
        let rest = inputs.drop_first();
        match react(run, inputs[0].0, inputs[0].1) {
            TurnView::Finished(_) => {},
            TurnView::Perform(next, action) => {
                let tail = trace(next, rest);
                let all = trace(run, inputs);
                if run.todo.len() > 0 {
                    assert(!(run.todo[0] is Archive));
                }
                assert(!(action is Archive));
                if run.awaiting == Awaiting::Workbook && inputs[0].0 is Opened {
                    let book = inputs[0].0->Opened_0;
                    lemma_plan_shape(book, run.stem, inputs[0].1);
                    if is_unbalanced(next.ending) {
                        assert(doomed(next));
                        lemma_doomed_trace(next, rest);
                    } else {
                        assert(settled(next));
                        lemma_settled_result(next, rest);
                    }
                } else {
                    assert(no_archive(next.todo)) by {
                        assert forall|k: int| 0 <= k < next.todo.len() implies !(
                        #[trigger] next.todo[k] is Archive) by {
                            if next.todo == run.todo.drop_first() && run.todo.len() > 0 {
                                assert(next.todo[k] == run.todo[k + 1]);
                            }
                        }
                    }
                    assert(fresh(next));
                    lemma_fresh_trace(next, rest);
                }
                assert(tail.len() > 0);
                assert(all.last() == tail.last());
                assert forall|k: int| 0 <= k < all.len() implies !(#[trigger] all[k] is Archive) by {
                    if k > 0 {
                        assert(all[k] == tail[k - 1]);
                    }
                }
            },
        }
    }
}

/// A run that ends with a placeholder failure has written no archive, and
/// the last thing it asked for was to discard the output folder, whatever
/// its caller reported.
pub proof fn law_placeholder_failure_leaves_no_output(
    path: Seq<char>,
    stem: Seq<char>,
    inputs: Seq<Input>,
)
    requires
        result(initial(path, stem), inputs) is Some,
        is_unbalanced(result(initial(path, stem), inputs)->0),
    ensures
        no_archive(trace(initial(path, stem), inputs)),
        trace(initial(path, stem), inputs).len() > 0,
        trace(initial(path, stem), inputs).last() is DiscardFolder,
{
    lemma_fresh_trace(initial(path, stem), inputs);
}

/// Where the registries can be read and the pass of some language fails,
/// the plan ends with a placeholder failure, writes no archive, and has
/// the discarding of the output folder as its last action.
pub proof fn law_unbalanced_value_fails_the_run(
    book: Seq<SheetView>,
    stem: Seq<char>,
    stamp: Seq<char>,
    l: int,
)
    requires
        read_registries(book) is Ok,
        0 <= l < read_registries(book)->Ok_0.0.len(),
        language_pass(
            book,
            read_registries(book)->Ok_0.1,
            read_registries(book)->Ok_0.0[l],
        ).failure is Some,
    ensures
        is_unbalanced(plan_of(book, stem, stamp).ending),
        no_archive(plan_of(book, stem, stamp).actions),
        plan_of(book, stem, stamp).actions.len() > 0,
        plan_of(book, stem, stamp).actions.last() is DiscardFolder,
{
    let languages = read_registries(book)->Ok_0.0;
    let sheets = read_registries(book)->Ok_0.1;
    let folder = folder_name(stem, stamp);
    lemma_languages_script_shape(book, sheets, languages, folder, languages.len() as int);
    lemma_plan_shape(book, stem, stamp);
}

} // verus!
