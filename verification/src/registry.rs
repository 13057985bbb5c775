//! The two control sheets: which languages to export, and which content
//! sheets in which mode.

use vstd::prelude::*;
use vstd::string::*;
use crate::cell::Cell;
use crate::error::{control_sheet_name, ControlSheet, ErrorView, ExportError};
use crate::text::is_text;
use crate::workbook::{
    find_sheet,
    grid_wf,
    text_at,
    text_in_row,
    ContentView,
    Grid,
    SheetContent,
    SheetView,
    Workbook,
};

verus! {

/// One language to export.
#[derive(Clone, Debug)]
pub struct LanguageConfig {
    pub code: String,
}

impl View for LanguageConfig {
    type V = Seq<char>;

    open spec fn view(&self) -> Seq<char> {
        self.code@
    }
}

impl DeepView for LanguageConfig {
    type V = Seq<char>;

    open spec fn deep_view(&self) -> Seq<char> {
        self@
    }
}

/// How the keys of a content sheet enter a language's document.
#[derive(Clone, Copy, Debug, PartialEq, Eq, Structural)]
pub enum SheetMode {
    /// The keys are merged into the top level of the document.
    Root,
    /// The keys form an object under the sheet's name.
    Nested,
}

/// One content sheet to export.
#[derive(Clone, Debug)]
pub struct SheetConfig {
    pub name: String,
    pub mode: SheetMode,
}

/// The mathematical content of a [`SheetConfig`].
pub struct SheetConfigView {
    pub name: Seq<char>,
    pub mode: SheetMode,
}

impl View for SheetConfig {
    type V = SheetConfigView;

    open spec fn view(&self) -> SheetConfigView {
        SheetConfigView { name: self.name@, mode: self.mode }
    }
}

impl DeepView for SheetConfig {
    type V = SheetConfigView;

    open spec fn deep_view(&self) -> SheetConfigView {
        self@
    }
}

/// The mode that a marker selects: `root` merges flat, anything else nests.
pub open spec fn mode_of(marker: Seq<char>) -> SheetMode {
    if marker == "root"@ {
        SheetMode::Root
    } else {
        SheetMode::Nested
    }
}

/// The language codes that the first `n` rows of the language registry
/// list: the first cell of each row, rows with an empty first cell left out.
pub open spec fn languages_upto(grid: Grid, n: int) -> Seq<Seq<char>>
    decreases n,
{
    if n <= 0 {
        Seq::empty()
    } else {
        let before = languages_upto(grid, n - 1);
        let code = text_at(grid[n - 1], 0);
        if code.len() > 0 {
            before.push(code)
        } else {
            before
        }
    }
}

/// The content sheets that the first `n` rows of the sheet registry list:
/// the name in the first cell and the mode that the second cell selects,
/// rows with an empty first cell left out.
pub open spec fn sheets_upto(grid: Grid, n: int) -> Seq<SheetConfigView>
    decreases n,
{
    if n <= 0 {
        Seq::empty()
    } else {
        let before = sheets_upto(grid, n - 1);
        let name = text_at(grid[n - 1], 0);
        if name.len() > 0 {
            before.push(SheetConfigView { name, mode: mode_of(text_at(grid[n - 1], 1)) })
        } else {
            before
        }
    }
}

/// The rows of a control sheet, or the reason why there are none: the
/// workbook lacks the sheet, or the sheet could not be read.
pub open spec fn control_rows(book: Seq<SheetView>, control: ControlSheet) -> Result<
    Grid,
    ErrorView,
> {
    match find_sheet(book, control_sheet_name(control)) {
        None => Err(ErrorView::MissingControlSheet { control }),
        Some(i) => match book[i].content {
            ContentView::Rows(grid) => Ok(grid),
            ContentView::Unreadable(detail) => Err(ErrorView::SheetReadFailure { control, detail }),
        },
    }
}

/// The languages that a workbook asks for.
pub open spec fn read_languages(book: Seq<SheetView>) -> Result<Seq<Seq<char>>, ErrorView> {
    match control_rows(book, ControlSheet::Languages) {
        Ok(grid) => Ok(languages_upto(grid, grid.len() as int)),
        Err(e) => Err(e),
    }
}

/// The content sheets that a workbook asks for.
pub open spec fn read_sheets(book: Seq<SheetView>) -> Result<Seq<SheetConfigView>, ErrorView> {
    match control_rows(book, ControlSheet::Sheets) {
        Ok(grid) => Ok(sheets_upto(grid, grid.len() as int)),
        Err(e) => Err(e),
    }
}

/// The control sheet that a workbook lacks, if it lacks one; the language
/// registry is looked for first.
pub open spec fn missing_control(book: Seq<SheetView>) -> Option<ControlSheet> {
    if find_sheet(book, control_sheet_name(ControlSheet::Languages)) is None {
        Some(ControlSheet::Languages)
    } else if find_sheet(book, control_sheet_name(ControlSheet::Sheets)) is None {
        Some(ControlSheet::Sheets)
    } else {
        None
    }
}

/// The languages and the content sheets that a workbook asks for. A
/// workbook that lacks a control sheet fails with that sheet reported
/// missing, whatever else is wrong with it; after that a control sheet that
/// could not be read fails, the language registry first.
pub open spec fn read_registries(book: Seq<SheetView>) -> Result<
    (Seq<Seq<char>>, Seq<SheetConfigView>),
    ErrorView,
> {
    match missing_control(book) {
        Some(control) => Err(ErrorView::MissingControlSheet { control }),
        None => match read_languages(book) {
            Err(e) => Err(e),
            Ok(languages) => match read_sheets(book) {
                Err(e) => Err(e),
                Ok(sheets) => Ok((languages, sheets)),
            },
        },
    }
}

/// No language code of the registry is empty.
pub proof fn lemma_language_codes_nonempty(grid: Grid, n: int)
    ensures
        forall|i: int|
            0 <= i < languages_upto(grid, n).len() ==> (#[trigger] languages_upto(grid, n)[i]).len()
                > 0,
    decreases n,
{
    if n > 0 {
        lemma_language_codes_nonempty(grid, n - 1);
        let before = languages_upto(grid, n - 1);
        let all = languages_upto(grid, n);
        assert forall|i: int| 0 <= i < all.len() implies (#[trigger] all[i]).len() > 0 by {
            if i < before.len() {
                assert(all[i] == before[i]);
            }
        }
    }
}

/// No sheet name of the registry is empty.
pub proof fn lemma_sheet_names_nonempty(grid: Grid, n: int)
    ensures
        forall|i: int|
            0 <= i < sheets_upto(grid, n).len() ==> (#[trigger] sheets_upto(grid, n)[i]).name.len()
                > 0,
    decreases n,
{
    if n > 0 {
        lemma_sheet_names_nonempty(grid, n - 1);
        let before = sheets_upto(grid, n - 1);
        let all = sheets_upto(grid, n);
        assert forall|i: int| 0 <= i < all.len() implies (#[trigger] all[i]).name.len() > 0 by {
            if i < before.len() {
                assert(all[i] == before[i]);
            }
        }
    }
}

fn control_sheet(workbook: &Workbook, control: ControlSheet) -> (res: Result<
    &Vec<Vec<Cell>>,
    ExportError,
>)
    ensures
        match res {
            Ok(rows) => control_rows(workbook@, control) == Ok::<Grid, ErrorView>(rows.deep_view()),
            Err(e) => control_rows(workbook@, control) == Err::<Grid, ErrorView>(e@),
        },
{
    let name = String::from_str(control.name());
    match workbook.find(&name) {
        None => Err(ExportError::MissingControlSheet { control }),
        Some(i) => {
            assert(workbook@[i as int] == workbook.sheets@[i as int]@);
            match &workbook.sheets[i].content {
                SheetContent::Rows(rows) => Ok(rows),
                SheetContent::Unreadable(detail) => Err(
                    ExportError::SheetReadFailure { control, detail: detail.clone() },
                ),
            }
        },
    }
}

/// Tells which control sheet a workbook lacks, the language registry
/// first.
pub fn missing_control_sheet(workbook: &Workbook) -> (missing: Option<ControlSheet>)
    ensures
        missing == missing_control(workbook@),
{
    let languages = String::from_str(ControlSheet::Languages.name());
    let sheets = String::from_str(ControlSheet::Sheets.name());
    if workbook.find(&languages).is_none() {
        Some(ControlSheet::Languages)
    } else if workbook.find(&sheets).is_none() {
        Some(ControlSheet::Sheets)
    } else {
        None
    }
}

/// Reads the language registry of a workbook.
///
/// Fails where the workbook lacks the registry sheet or the sheet could not
/// be read. Rows whose first cell is empty are skipped; repeated codes stay.
pub fn read_language_configs_from_excel(workbook: &Workbook) -> (res: Result<
    Vec<LanguageConfig>,
    ExportError,
>)
    requires
        workbook.wf(),
    ensures
        match res {
            Ok(configs) => read_languages(workbook@) == Ok::<Seq<Seq<char>>, ErrorView>(
                configs.deep_view(),
            ),
            Err(e) => read_languages(workbook@) == Err::<Seq<Seq<char>>, ErrorView>(e@),
        },
{
    let rows = match control_sheet(workbook, ControlSheet::Languages) {
        Ok(rows) => rows,
        Err(e) => {
            return Err(e);
        },
    };
    let ghost grid = rows.deep_view();
    proof {
        crate::workbook::lemma_find_from(workbook@, control_sheet_name(ControlSheet::Languages), 0);
    }
    let mut configs: Vec<LanguageConfig> = Vec::new();
    let mut r: usize = 0;
    while r < rows.len()
        invariant
            r <= rows.len(),
            grid == rows.deep_view(),
            grid_wf(grid),
            configs.deep_view() == languages_upto(grid, r as int),
        decreases rows.len() - r,
    {
        assert(grid[r as int] == rows@[r as int].deep_view());
        let code = text_in_row(&rows[r], 0);
        let ghost before = configs.deep_view();
        if !code.as_str().is_empty() {
            configs.push(LanguageConfig { code });
            assert(configs.deep_view() =~= before.push(code@));
        }
        r = r + 1;
    }
    Ok(configs)
}

/// Reads the sheet registry of a workbook.
///
/// Fails where the workbook lacks the registry sheet or the sheet could not
/// be read. Rows whose first cell is empty are skipped; a second cell that
/// reads `root` selects the flat merge, anything else the nested one.
pub fn read_sheet_configs_from_excel(workbook: &Workbook) -> (res: Result<
    Vec<SheetConfig>,
    ExportError,
>)
    requires
        workbook.wf(),
    ensures
        match res {
            Ok(configs) => read_sheets(workbook@) == Ok::<Seq<SheetConfigView>, ErrorView>(
                configs.deep_view(),
            ),
            Err(e) => read_sheets(workbook@) == Err::<Seq<SheetConfigView>, ErrorView>(e@),
        },
{
    let rows = match control_sheet(workbook, ControlSheet::Sheets) {
        Ok(rows) => rows,
        Err(e) => {
            return Err(e);
        },
    };
    let ghost grid = rows.deep_view();
    proof {
        crate::workbook::lemma_find_from(workbook@, control_sheet_name(ControlSheet::Sheets), 0);
    }
    let mut configs: Vec<SheetConfig> = Vec::new();
    let mut r: usize = 0;
    while r < rows.len()
        invariant
            r <= rows.len(),
            grid == rows.deep_view(),
            grid_wf(grid),
            configs.deep_view() == sheets_upto(grid, r as int),
        decreases rows.len() - r,
    {
        assert(grid[r as int] == rows@[r as int].deep_view());
        let name = text_in_row(&rows[r], 0);
        let ghost before = configs.deep_view();
        if !name.as_str().is_empty() {
            let marker = text_in_row(&rows[r], 1);
            let mode = if is_text(&marker, "root") {
                SheetMode::Root
            } else {
                SheetMode::Nested
            };
            configs.push(SheetConfig { name, mode });
            assert(configs.deep_view() =~= before.push(
                SheetConfigView { name: name@, mode: mode_of(marker@) },
            ));
        }
        r = r + 1;
    }
    Ok(configs)
}

/// Reads both registries of a workbook.
///
/// Fails where the workbook lacks a control sheet, and then where one of
/// them could not be read.
pub fn read_configs_from_excel(workbook: &Workbook) -> (res: Result<
    (Vec<LanguageConfig>, Vec<SheetConfig>),
    ExportError,
>)
    requires
        workbook.wf(),
    ensures
        match res {
            Ok(configs) => read_registries(workbook@) == Ok::<
                (Seq<Seq<char>>, Seq<SheetConfigView>),
                ErrorView,
            >((configs.0.deep_view(), configs.1.deep_view())),
            Err(e) => read_registries(workbook@) == Err::<
                (Seq<Seq<char>>, Seq<SheetConfigView>),
                ErrorView,
            >(e@),
        },
{
    if let Some(control) = missing_control_sheet(workbook) {
        return Err(ExportError::MissingControlSheet { control });
    }
    let languages = match read_language_configs_from_excel(workbook) {
        Ok(languages) => languages,
        Err(e) => {
            return Err(e);
        },
    };
    let sheets = match read_sheet_configs_from_excel(workbook) {
        Ok(sheets) => sheets,
        Err(e) => {
            return Err(e);
        },
    };
    Ok((languages, sheets))
}

} // verus!
