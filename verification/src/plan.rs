//! The plan of a run: what it does with an opened workbook, action by
//! action, and how it ends.

use vstd::prelude::*;
use vstd::string::*;
use crate::action::{Action, ActionView};
use crate::assemble::{
    assemble_language,
    language_document,
    language_pass,
    lemma_merge_plain,
    render_document,
    INDENT,
};
use crate::document::{pretty_text, JsonModel};
use crate::error::{ErrorView, ExportError};
use crate::progress::{compressing, counted, processing, EventView, ProgressEvent};
use crate::registry::{read_configs_from_excel, read_registries, SheetConfig, SheetConfigView};
use crate::workbook::{SheetView, Workbook};

verus! {

/// The name of the output folder of a run: the stem of the input file, an
/// underscore, and the time stamp of the run.
pub open spec fn folder_name(stem: Seq<char>, stamp: Seq<char>) -> Seq<char> {
    stem + "_"@ + stamp
}

/// The name of the file of a language.
pub open spec fn file_name(code: Seq<char>) -> Seq<char> {
    code + ".json"@
}

/// One action for each event.
pub open spec fn emits(events: Seq<EventView>) -> Seq<ActionView> {
    Seq::new(events.len(), |i: int| ActionView::Emit(events[i]))
}

/// A list of actions, and the failure that ends it early, if any.
pub struct ScriptView {
    pub actions: Seq<ActionView>,
    pub failure: Option<ErrorView>,
}

/// What a run does for one language: it announces the language, delivers
/// the warnings of the pass, and then either writes the language's file or,
/// where the pass failed, discards the output folder.
pub open spec fn language_script(
    book: Seq<SheetView>,
    sheets: Seq<SheetConfigView>,
    code: Seq<char>,
    folder: Seq<char>,
) -> ScriptView {
    let pass = language_pass(book, sheets, code);
    let head = seq![ActionView::Emit(processing(code))] + emits(pass.events);
    if pass.failure is Some {
        ScriptView {
            actions: head.push(ActionView::DiscardFolder { folder }),
            failure: pass.failure,
        }
    } else {
        ScriptView {
            actions: head.push(
                ActionView::WriteFile {
                    folder,
                    name: file_name(code),
                    content: pretty_text(
                        JsonModel::Object(language_document(book, sheets, code)),
                        INDENT,
                    ),
                },
            ),
            failure: None,
        }
    }
}

/// What a run does for the first `n` languages; a language that fails is
/// the last one looked at.
pub open spec fn languages_script(
    book: Seq<SheetView>,
    sheets: Seq<SheetConfigView>,
    languages: Seq<Seq<char>>,
    folder: Seq<char>,
    n: int,
) -> ScriptView
    decreases n,
{
    if n <= 0 {
        ScriptView { actions: Seq::empty(), failure: None }
    } else {
        let before = languages_script(book, sheets, languages, folder, n - 1);
        if before.failure is Some {
            before
        } else {
            let next = language_script(book, sheets, languages[n - 1], folder);
            ScriptView { actions: before.actions + next.actions, failure: next.failure }
        }
    }
}

/// What a run has left to do, and how it ends after that: with the summary
/// of so many exported files, or with a failure.
pub struct PlanView {
    pub actions: Seq<ActionView>,
    pub ending: Result<int, ErrorView>,
}

/// What a run does with an opened workbook. Where a control sheet is
/// missing or cannot be read, it fails at once. Otherwise it announces the registry's counts,
/// creates the output folder and exports the languages in turn; after a
/// language that failed nothing follows, and after the last language the
/// folder is archived and removed.
pub open spec fn plan_of(book: Seq<SheetView>, stem: Seq<char>, stamp: Seq<char>) -> PlanView {
    match read_registries(book) {
        Err(e) => PlanView { actions: Seq::empty(), ending: Err(e) },
        Ok((languages, sheets)) => {
            let folder = folder_name(stem, stamp);
            let head = seq![
                ActionView::Emit(counted(languages.len() as int, sheets.len() as int)),
                ActionView::CreateFolder { folder },
            ];
            let body = languages_script(book, sheets, languages, folder, languages.len() as int);
            match body.failure {
                Some(e) => PlanView { actions: head + body.actions, ending: Err(e) },
                None => PlanView {
                    actions: head + body.actions + seq![
                        ActionView::Emit(compressing()),
                        ActionView::Archive { folder },
                        ActionView::RemoveFolder { folder },
                    ],
                    ending: Ok(languages.len() as int),
                },
            }
        },
    }
}

/// The mathematical content of the way a run ends.
pub open spec fn ending_view(ending: Result<usize, ExportError>) -> Result<int, ErrorView> {
    match ending {
        Ok(files) => Ok(files as int),
        Err(e) => Err(e@),
    }
}

/// Composes the name of the output folder of a run.
pub fn export_folder_name(stem: &str, stamp: &str) -> (name: String)
    ensures
        name@ == folder_name(stem@, stamp@),
{
    let mut name = String::from_str(stem);
    name.append("_");
    name.append(stamp);
    name
}

/// Composes the name of the file of a language.
pub fn language_file_name(code: &str) -> (name: String)
    ensures
        name@ == file_name(code@),
{
    String::from_str(code).concat(".json")
}

fn push_events(actions: &mut Vec<Action>, events: &Vec<ProgressEvent>)
    ensures
        final(actions).deep_view() == old(actions).deep_view() + emits(events.deep_view()),
{
    let ghost start = actions.deep_view();
    let ghost shown = events.deep_view();
    let mut i: usize = 0;
    assert(actions.deep_view() =~= start + emits(shown.take(0)));
    while i < events.len()
        invariant
            i <= events.len(),
            shown == events.deep_view(),
            actions.deep_view() == start + emits(shown.take(i as int)),
        decreases events.len() - i,
    {
        let ghost before = actions.deep_view();
        assert(shown[i as int] == events@[i as int]@);
        let action = Action::Emit(events[i].duplicate());
        actions.push(action);
        assert(actions.deep_view() =~= before.push(action@));
        assert(actions.deep_view() =~= start + emits(shown.take(i + 1)));
        i = i + 1;
    }
    assert(shown.take(events.len() as int) =~= shown);
}

fn push_language(
    actions: &mut Vec<Action>,
    workbook: &Workbook,
    sheets: &Vec<SheetConfig>,
    code: &String,
    folder: &String,
) -> (failed: Option<ExportError>)
    requires
        workbook.wf(),
    ensures
        final(actions).deep_view() == old(actions).deep_view() + language_script(
            workbook@,
            sheets.deep_view(),
            code@,
            folder@,
        ).actions,
        failed.deep_view() == language_script(
            workbook@,
            sheets.deep_view(),
            code@,
            folder@,
        ).failure,
{
    let ghost start = actions.deep_view();
    let ghost script = language_script(workbook@, sheets.deep_view(), code@, folder@);
    let ghost pass_view = language_pass(workbook@, sheets.deep_view(), code@);
    let first = Action::Emit(ProgressEvent::processing(code.as_str()));
    actions.push(first);
    assert(actions.deep_view() =~= start.push(first@));
    let pass = assemble_language(workbook, sheets, code);
    push_events(actions, &pass.events);
    let ghost head = seq![ActionView::Emit(processing(code@))] + emits(pass_view.events);
    assert(actions.deep_view() =~= start + head);
    let ghost before = actions.deep_view();
    match pass.outcome {
        Ok(doc) => {
            proof {
                lemma_merge_plain(
                    sheets.deep_view(),
                    pass_view.tables,
                    sheets.deep_view().len() as int,
                );
            }
            let last = Action::WriteFile {
                folder: folder.clone(),
                name: language_file_name(code.as_str()),
                content: render_document(&doc),
            };
            actions.push(last);
            assert(actions.deep_view() =~= before.push(last@));
            assert(actions.deep_view() =~= start + script.actions);
            None
        },
        Err(e) => {
            let last = Action::DiscardFolder { folder: folder.clone() };
            actions.push(last);
            assert(actions.deep_view() =~= before.push(last@));
            assert(actions.deep_view() =~= start + script.actions);
            Some(e)
        },
    }
}

/// Once a language has failed, further languages change nothing.
pub proof fn lemma_script_failure_stays(
    book: Seq<SheetView>,
    sheets: Seq<SheetConfigView>,
    languages: Seq<Seq<char>>,
    folder: Seq<char>,
    m: int,
    n: int,
)
    requires
        m <= n,
        languages_script(book, sheets, languages, folder, m).failure is Some,
    ensures
        languages_script(book, sheets, languages, folder, n) == languages_script(
            book,
            sheets,
            languages,
            folder,
            m,
        ),
    decreases n - m,
{
    if m < n {
        lemma_script_failure_stays(book, sheets, languages, folder, m, n - 1);
    }
}

/// Lays out what a run does with an opened workbook, and how it ends.
pub fn make_plan(workbook: &Workbook, stem: &str, stamp: &str) -> (plan: (
    Vec<Action>,
    Result<usize, ExportError>,
))
    requires
        workbook.wf(),
    ensures
        plan.0.deep_view() == plan_of(workbook@, stem@, stamp@).actions,
        ending_view(plan.1) == plan_of(workbook@, stem@, stamp@).ending,
{
    let mut actions: Vec<Action> = Vec::new();
    assert(actions.deep_view() =~= Seq::<ActionView>::empty());
    let (languages, sheets) = match read_configs_from_excel(workbook) {
        Ok(configs) => configs,
        Err(e) => {
            return (actions, Err(e));
        },
    };
    let folder = export_folder_name(stem, stamp);
    let ghost book = workbook@;
    let ghost codes = languages.deep_view();
    let ghost configs = sheets.deep_view();
    let first = Action::Emit(ProgressEvent::counted(languages.len(), sheets.len()));
    let second = Action::CreateFolder { folder: folder.clone() };
    let ghost head = seq![first@, second@];
    actions.push(first);
    actions.push(second);
    assert(actions.deep_view() =~= head + Seq::<ActionView>::empty());
    let mut l: usize = 0;
    while l < languages.len()
        invariant
            l <= languages.len(),
            workbook.wf(),
            book == workbook@,
            codes == languages.deep_view(),
            configs == sheets.deep_view(),
            read_registries(book) == Ok::<(Seq<Seq<char>>, Seq<SheetConfigView>), ErrorView>(
                (codes, configs),
            ),
            folder@ == folder_name(stem@, stamp@),
            head == seq![
                ActionView::Emit(counted(codes.len() as int, configs.len() as int)),
                ActionView::CreateFolder { folder: folder@ },
            ],
            languages_script(book, configs, codes, folder@, l as int).failure is None,
            actions.deep_view() == head + languages_script(
                book,
                configs,
                codes,
                folder@,
                l as int,
            ).actions,
        decreases languages.len() - l,
    {
        let ghost before = languages_script(book, configs, codes, folder@, l as int);
        let ghost shown = actions.deep_view();
        assert(codes[l as int] == languages@[l as int]@);
        let failed = push_language(&mut actions, workbook, &sheets, &languages[l].code, &folder);
        let ghost next = language_script(book, configs, codes[l as int], folder@);
        assert(actions.deep_view() =~= head + (before.actions + next.actions));
        match failed {
            Some(e) => {
                proof {
                    lemma_script_failure_stays(
                        book,
                        configs,
                        codes,
                        folder@,
                        l + 1,
                        languages.len() as int,
                    );
                }
                return (actions, Err(e));
            },
            None => {},
        }
        l = l + 1;
    }
    let ghost body = actions.deep_view();
    let third = Action::Emit(ProgressEvent::compressing());
    let fourth = Action::Archive { folder: folder.clone() };
    let fifth = Action::RemoveFolder { folder: folder.clone() };
    let ghost tail = seq![third@, fourth@, fifth@];
    actions.push(third);
    actions.push(fourth);
    actions.push(fifth);
    assert(actions.deep_view() =~= body + tail);
    (actions, Ok(languages.len()))
}

} // verus!
