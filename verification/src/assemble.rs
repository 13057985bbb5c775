//! Assembling the document of one language: scanning the content sheets in
//! registry order, then merging their translations by each sheet's mode.

use vstd::prelude::*;
use vstd::string::*;
use indexmap::IndexMap;
use json::JsonValue;
use crate::assoc::{lookup, upsert};
use crate::cell::{cell_text, get_cell_string, Cell, CellView};
use crate::document::{
    json_model,
    json_new_object,
    json_pretty,
    json_set,
    json_text,
    members_of,
    plain,
    pretty_text,
    JsonModel,
    Members,
};
use crate::error::{ErrorView, ExportError};
use crate::placeholder::{balanced, check_placeholders};
use crate::progress::{empty_value, sheet_missing, sheet_unreadable, EventView, ProgressEvent};
use crate::registry::{SheetConfig, SheetConfigView, SheetMode};
use crate::table::{
    table_entries,
    table_insert,
    table_items,
    table_new,
    tables_entries,
    tables_get,
    tables_insert,
    tables_new,
    Entries,
};
use crate::text::same_text;
use crate::workbook::{
    find_sheet,
    grid_wf,
    row_wf,
    text_at,
    text_in_row,
    ContentView,
    Grid,
    SheetContent,
    SheetView,
    Workbook,
};

verus! {

/// The number of spaces by which the exported files indent.
pub const INDENT: u16 = 2;

/// What scanning the rows of one sheet for one language has yielded.
pub struct ScanView {
    /// The translations found, last occurrence of a key winning.
    pub table: Entries,
    /// The warnings raised, in row order.
    pub events: Seq<EventView>,
    /// The failure that ended the scan, if any.
    pub failure: Option<ErrorView>,
}

/// What scanning the sheets of the registry for one language has yielded.
pub struct PassView {
    /// The translations of each sheet that contributes, by sheet name.
    pub tables: Seq<(Seq<char>, Entries)>,
    /// The warnings raised, in order.
    pub events: Seq<EventView>,
    /// The failure that ended the pass, if any.
    pub failure: Option<ErrorView>,
}

/// The index of the first header cell at or after `from` whose text is the
/// language code.
pub open spec fn column_from(header: Seq<CellView>, code: Seq<char>, from: int) -> Option<int>
    decreases header.len() - from,
{
    if from < 0 || from >= header.len() {
        None
    } else if cell_text(header[from]) == code {
        Some(from)
    } else {
        column_from(header, code, from + 1)
    }
}

/// The column of a language in a sheet: the first cell of the first row
/// whose text is the language code. A sheet without rows has none.
pub open spec fn language_column(grid: Grid, code: Seq<char>) -> Option<int> {
    if grid.len() == 0 {
        None
    } else {
        column_from(grid[0], code, 0)
    }
}

/// The scan after one more row. `number` is the row's number, counted from
/// one. A row with an empty first cell changes nothing; otherwise an empty
/// value raises a warning, an unbalanced value ends the scan, and a balanced
/// one is recorded under the row's key.
pub open spec fn scan_row(
    sheet: Seq<char>,
    code: Seq<char>,
    col: int,
    before: ScanView,
    row: Seq<CellView>,
    number: int,
) -> ScanView {
    let key = text_at(row, 0);
    let value = text_at(row, col);
    if before.failure is Some || key.len() == 0 {
        before
    } else {
        let events = if value.len() == 0 {
            before.events.push(empty_value(sheet, number, code, key))
        } else {
            before.events
        };
        if balanced(value) {
            ScanView { table: upsert(before.table, key, value), events, failure: None }
        } else {
            ScanView {
                table: before.table,
                events,
                failure: Some(ErrorView::PlaceholderError { sheet, row: number, key, value }),
            }
        }
    }
}

/// The scan of the rows below the header, up to the row with index `n`
/// (exclusive).
pub open spec fn scan_rows(sheet: Seq<char>, grid: Grid, code: Seq<char>, col: int, n: int) -> ScanView
    decreases n,
{
    if n <= 1 {
        ScanView { table: Seq::empty(), events: Seq::empty(), failure: None }
    } else {
        scan_row(sheet, code, col, scan_rows(sheet, grid, code, col, n - 1), grid[n - 1], n)
    }
}

/// The pass after one more sheet of the registry. A sheet that the workbook
/// lacks, or that could not be read, raises a warning; one without rows or
/// without a column for the language changes nothing; otherwise its scan
/// adds its warnings and its failure or its translations.
pub open spec fn sheet_step(
    book: Seq<SheetView>,
    code: Seq<char>,
    before: PassView,
    config: SheetConfigView,
) -> PassView {
    if before.failure is Some {
        before
    } else {
        match find_sheet(book, config.name) {
            None => PassView { events: before.events.push(sheet_missing(config.name)), ..before },
            Some(i) => match book[i].content {
                ContentView::Unreadable(detail) => PassView {
                    events: before.events.push(sheet_unreadable(config.name, detail)),
                    ..before
                },
                ContentView::Rows(grid) => match language_column(grid, code) {
                    None => before,
                    Some(col) => {
                        let scan = scan_rows(config.name, grid, code, col, grid.len() as int);
                        PassView {
                            tables: if scan.failure is None {
                                upsert(before.tables, config.name, scan.table)
                            } else {
                                before.tables
                            },
                            events: before.events + scan.events,
                            failure: scan.failure,
                        }
                    },
                },
            },
        }
    }
}

/// The pass over the first `n` sheets of the registry.
pub open spec fn collect_upto(
    book: Seq<SheetView>,
    sheets: Seq<SheetConfigView>,
    code: Seq<char>,
    n: int,
) -> PassView
    decreases n,
{
    if n <= 0 {
        PassView { tables: Seq::empty(), events: Seq::empty(), failure: None }
    } else {
        sheet_step(book, code, collect_upto(book, sheets, code, n - 1), sheets[n - 1])
    }
}

/// The pass over all sheets of the registry for one language.
pub open spec fn language_pass(
    book: Seq<SheetView>,
    sheets: Seq<SheetConfigView>,
    code: Seq<char>,
) -> PassView {
    collect_upto(book, sheets, code, sheets.len() as int)
}

/// Members after the first `n` translations were set as strings, in order.
pub open spec fn absorb(members: Members, table: Entries, n: int) -> Members
    decreases n,
{
    if n <= 0 {
        members
    } else {
        upsert(absorb(members, table, n - 1), table[n - 1].0, JsonModel::Text(table[n - 1].1))
    }
}

/// The object that holds the translations of one sheet.
pub open spec fn table_object(table: Entries) -> JsonModel {
    JsonModel::Object(absorb(Seq::empty(), table, table.len() as int))
}

/// The document after one more sheet of the registry was merged. A sheet
/// without translations changes nothing; a sheet in root mode sets each of
/// its keys at the top level; any other sheet sets its whole table as an
/// object under its name.
pub open spec fn merge_step(
    members: Members,
    tables: Seq<(Seq<char>, Entries)>,
    config: SheetConfigView,
) -> Members {
    match lookup(tables, config.name) {
        None => members,
        Some(table) => if config.mode == SheetMode::Root {
            absorb(members, table, table.len() as int)
        } else {
            upsert(members, config.name, table_object(table))
        },
    }
}

/// The document after the first `n` sheets of the registry were merged.
pub open spec fn merge_upto(
    sheets: Seq<SheetConfigView>,
    tables: Seq<(Seq<char>, Entries)>,
    n: int,
) -> Members
    decreases n,
{
    if n <= 0 {
        Seq::empty()
    } else {
        merge_step(merge_upto(sheets, tables, n - 1), tables, sheets[n - 1])
    }
}

/// The members of the document of one language.
pub open spec fn language_document(
    book: Seq<SheetView>,
    sheets: Seq<SheetConfigView>,
    code: Seq<char>,
) -> Members {
    merge_upto(sheets, language_pass(book, sheets, code).tables, sheets.len() as int)
}

/// Whether every member is made of objects and strings alone.
pub open spec fn members_plain(members: Members) -> bool {
    forall|i: int| 0 <= i < members.len() ==> plain(#[trigger] members[i].1)
}

/// Setting a member to a plain value keeps the members plain.
pub proof fn lemma_upsert_plain(members: Members, key: Seq<char>, value: JsonModel)
    requires
        members_plain(members),
        plain(value),
    ensures
        members_plain(upsert(members, key, value)),
{
    let after = upsert(members, key, value);
    assert forall|i: int| 0 <= i < after.len() implies plain(#[trigger] after[i].1) by {
        crate::assoc::lemma_position_from(members, key, 0);
        if i < members.len() && after[i] != (key, value) {
            assert(after[i] == members[i]);
        }
    }
}

/// Setting translations as strings keeps the members plain.
pub proof fn lemma_absorb_plain(members: Members, table: Entries, n: int)
    requires
        members_plain(members),
    ensures
        members_plain(absorb(members, table, n)),
    decreases n,
{
    if n > 0 {
        lemma_absorb_plain(members, table, n - 1);
        lemma_upsert_plain(
            absorb(members, table, n - 1),
            table[n - 1].0,
            JsonModel::Text(table[n - 1].1),
        );
    }
}

/// A merged document is made of objects and strings alone.
pub proof fn lemma_merge_plain(
    sheets: Seq<SheetConfigView>,
    tables: Seq<(Seq<char>, Entries)>,
    n: int,
)
    ensures
        members_plain(merge_upto(sheets, tables, n)),
        plain(JsonModel::Object(merge_upto(sheets, tables, n))),
    decreases n,
{
    if n > 0 {
        lemma_merge_plain(sheets, tables, n - 1);
        let before = merge_upto(sheets, tables, n - 1);
        match lookup(tables, sheets[n - 1].name) {
            None => {},
            Some(table) => {
                lemma_absorb_plain(before, table, table.len() as int);
                lemma_absorb_plain(Seq::empty(), table, table.len() as int);
                lemma_upsert_plain(before, sheets[n - 1].name, table_object(table));
            },
        }
    }
}

/// Once a scan has failed, further rows change nothing.
pub proof fn lemma_scan_failure_stays(
    sheet: Seq<char>,
    grid: Grid,
    code: Seq<char>,
    col: int,
    m: int,
    n: int,
)
    requires
        m <= n,
        scan_rows(sheet, grid, code, col, m).failure is Some,
    ensures
        scan_rows(sheet, grid, code, col, n) == scan_rows(sheet, grid, code, col, m),
    decreases n - m,
{
    if m < n {
        lemma_scan_failure_stays(sheet, grid, code, col, m, n - 1);
    }
}

/// Finds the column of a language in a header row.
pub fn find_column(header: &Vec<Cell>, code: &String) -> (found: Option<usize>)
    requires
        row_wf(header.deep_view()),
    ensures
        match found {
            Some(col) => column_from(header.deep_view(), code@, 0) == Some(col as int) && col
                < header.len(),
            None => column_from(header.deep_view(), code@, 0) is None,
        },
{
    let mut j: usize = 0;
    while j < header.len()
        invariant
            j <= header.len(),
            row_wf(header.deep_view()),
            column_from(header.deep_view(), code@, 0) == column_from(
                header.deep_view(),
                code@,
                j as int,
            ),
        decreases header.len() - j,
    {
        assert(header.deep_view()[j as int] == header@[j as int]@);
        let text = get_cell_string(&header[j]);
        if same_text(&text, code) {
            return Some(j);
        }
        j = j + 1;
    }
    None
}

/// Scans the rows below the header of one sheet for one language.
///
/// Appends the warnings to `events`. Returns the translations, or the
/// failure of the first value whose braces do not balance; the rows after
/// such a value are not looked at.
pub fn scan_sheet(
    sheet: &String,
    rows: &Vec<Vec<Cell>>,
    code: &String,
    col: usize,
    events: &mut Vec<ProgressEvent>,
) -> (res: Result<IndexMap<String, String>, ExportError>)
    requires
        grid_wf(rows.deep_view()),
    ensures
        ({
            let scan = scan_rows(sheet@, rows.deep_view(), code@, col as int, rows.len() as int);
            &&& final(events).deep_view() == old(events).deep_view() + scan.events
            &&& match res {
                Ok(table) => scan.failure is None && table_entries(table) == scan.table,
                Err(e) => scan.failure == Some(e@),
            }
        }),
{
    let ghost grid = rows.deep_view();
    let ghost start = events.deep_view();
    let mut table = table_new();
    assert(events.deep_view() =~= start + Seq::<EventView>::empty());
    if rows.len() <= 1 {
        return Ok(table);
    }
    let mut r: usize = 1;
    while r < rows.len()
        invariant
            1 <= r <= rows.len(),
            grid == rows.deep_view(),
            grid_wf(grid),
            start == old(events).deep_view(),
            scan_rows(sheet@, grid, code@, col as int, r as int).failure is None,
            table_entries(table) == scan_rows(sheet@, grid, code@, col as int, r as int).table,
            events.deep_view() == start + scan_rows(sheet@, grid, code@, col as int, r as int).events,
        decreases rows.len() - r,
    {
        let ghost before = scan_rows(sheet@, grid, code@, col as int, r as int);
        let ghost after = scan_rows(sheet@, grid, code@, col as int, r + 1);
        assert(grid[r as int] == rows@[r as int].deep_view());
        assert(after == scan_row(sheet@, code@, col as int, before, grid[r as int], r + 1));
        let key = text_in_row(&rows[r], 0);
        if !key.as_str().is_empty() {
            let value = text_in_row(&rows[r], col);
            if value.as_str().is_empty() {
                let ghost shown = events.deep_view();
                let event = ProgressEvent::empty_value(
                    sheet.as_str(),
                    r + 1,
                    code.as_str(),
                    key.as_str(),
                );
                events.push(event);
                assert(events.deep_view() =~= shown.push(event@));
                assert(events.deep_view() =~= start + after.events);
            }
            match check_placeholders(value.as_str()) {
                Ok(()) => {
                    table_insert(&mut table, key, value);
                },
                Err(_) => {
                    proof {
                        lemma_scan_failure_stays(
                            sheet@,
                            grid,
                            code@,
                            col as int,
                            r + 1,
                            rows.len() as int,
                        );
                    }
                    return Err(
                        ExportError::PlaceholderError {
                            sheet: sheet.clone(),
                            row: r + 1,
                            key,
                            value,
                        },
                    );
                },
            }
        }
        r = r + 1;
    }
    Ok(table)
}

/// Once a pass has failed, further sheets change nothing.
pub proof fn lemma_pass_failure_stays(
    book: Seq<SheetView>,
    sheets: Seq<SheetConfigView>,
    code: Seq<char>,
    m: int,
    n: int,
)
    requires
        m <= n,
        collect_upto(book, sheets, code, m).failure is Some,
    ensures
        collect_upto(book, sheets, code, n) == collect_upto(book, sheets, code, m),
    decreases n - m,
{
    if m < n {
        lemma_pass_failure_stays(book, sheets, code, m, n - 1);
    }
}

/// What assembling one language has yielded.
#[derive(Debug)]
pub struct LanguagePass {
    /// The warnings raised on the way, in order.
    pub events: Vec<ProgressEvent>,
    /// The document of the language, or the failure that ended the pass.
    pub outcome: Result<JsonValue, ExportError>,
}

fn absorb_table(target: &mut JsonValue, table: &IndexMap<String, String>)
    requires
        json_model(*old(target)) is Object,
    ensures
        json_model(*final(target)) == JsonModel::Object(
            absorb(
                members_of(json_model(*old(target))),
                table_entries(*table),
                table_entries(*table).len() as int,
            ),
        ),
{
    let items = table_items(table);
    let ghost start = members_of(json_model(*target));
    let ghost entries = table_entries(*table);
    let mut i: usize = 0;
    while i < items.len()
        invariant
            i <= items.len(),
            items.deep_view() == entries,
            json_model(*target) == JsonModel::Object(absorb(start, entries, i as int)),
        decreases items.len() - i,
    {
        assert(entries[i as int] == items@[i as int].deep_view());
        let value = json_text(items[i].1.clone());
        json_set(target, items[i].0.as_str(), value);
        i = i + 1;
    }
}

/// Merges the translations of the sheets into one document, in registry
/// order and by each sheet's mode.
pub fn merge_tables(
    sheets: &Vec<SheetConfig>,
    tables: &IndexMap<String, IndexMap<String, String>>,
) -> (doc: JsonValue)
    ensures
        json_model(doc) == JsonModel::Object(
            merge_upto(sheets.deep_view(), tables_entries(*tables), sheets.len() as int),
        ),
{
    let mut doc = json_new_object();
    let mut s: usize = 0;
    while s < sheets.len()
        invariant
            s <= sheets.len(),
            json_model(doc) == JsonModel::Object(
                merge_upto(sheets.deep_view(), tables_entries(*tables), s as int),
            ),
        decreases sheets.len() - s,
    {
        assert(sheets.deep_view()[s as int] == sheets@[s as int]@);
        let config = &sheets[s];
        match tables_get(tables, &config.name) {
            None => {},
            Some(table) => {
                match config.mode {
                    SheetMode::Root => {
                        absorb_table(&mut doc, table);
                    },
                    SheetMode::Nested => {
                        let mut object = json_new_object();
                        absorb_table(&mut object, table);
                        json_set(&mut doc, config.name.as_str(), object);
                    },
                }
            },
        }
        s = s + 1;
    }
    doc
}

/// Assembles the document of one language from the content sheets that the
/// registry lists.
///
/// Sheets are scanned in registry order. A sheet that is missing or cannot
/// be read raises a warning and is skipped; a sheet without a column for
/// the language is skipped in silence. The first value whose braces do not
/// balance ends the pass with a failure.
pub fn assemble_language(workbook: &Workbook, sheets: &Vec<SheetConfig>, code: &String) -> (pass:
    LanguagePass)
    requires
        workbook.wf(),
    ensures
        ({
            let done = language_pass(workbook@, sheets.deep_view(), code@);
            &&& pass.events.deep_view() == done.events
            &&& match pass.outcome {
                Ok(doc) => {
                    &&& done.failure is None
                    &&& json_model(doc) == JsonModel::Object(
                        language_document(workbook@, sheets.deep_view(), code@),
                    )
                },
                Err(e) => done.failure == Some(e@),
            }
        }),
{
    let mut events: Vec<ProgressEvent> = Vec::new();
    let mut tables = tables_new();
    let ghost book = workbook@;
    let ghost configs = sheets.deep_view();
    assert(events.deep_view() =~= Seq::<EventView>::empty());
    let mut s: usize = 0;
    while s < sheets.len()
        invariant
            s <= sheets.len(),
            book == workbook@,
            workbook.wf(),
            configs == sheets.deep_view(),
            collect_upto(book, configs, code@, s as int).failure is None,
            tables_entries(tables) == collect_upto(book, configs, code@, s as int).tables,
            events.deep_view() == collect_upto(book, configs, code@, s as int).events,
        decreases sheets.len() - s,
    {
        let ghost before = collect_upto(book, configs, code@, s as int);
        let ghost after = collect_upto(book, configs, code@, s + 1);
        assert(configs[s as int] == sheets@[s as int]@);
        assert(after == sheet_step(book, code@, before, configs[s as int]));
        let config = &sheets[s];
        match workbook.find(&config.name) {
            None => {
                let event = ProgressEvent::sheet_missing(config.name.as_str());
                let ghost shown = events.deep_view();
                events.push(event);
                assert(events.deep_view() =~= shown.push(event@));
            },
            Some(i) => {
                assert(book[i as int] == workbook.sheets@[i as int]@);
                match &workbook.sheets[i].content {
                    SheetContent::Unreadable(detail) => {
                        let event = ProgressEvent::sheet_unreadable(
                            config.name.as_str(),
                            detail.as_str(),
                        );
                        let ghost shown = events.deep_view();
                        events.push(event);
                        assert(events.deep_view() =~= shown.push(event@));
                    },
                    SheetContent::Rows(rows) => {
                        if rows.len() > 0 {
                            assert(rows.deep_view()[0] == rows@[0].deep_view());
                            match find_column(&rows[0], code) {
                                None => {},
                                Some(col) => {
                                    match scan_sheet(&config.name, rows, code, col, &mut events) {
                                        Ok(table) => {
                                            tables_insert(&mut tables, config.name.clone(), table);
                                        },
                                        Err(e) => {
                                            proof {
                                                lemma_pass_failure_stays(
                                                    book,
                                                    configs,
                                                    code@,
                                                    s + 1,
                                                    sheets.len() as int,
                                                );
                                            }
                                            return LanguagePass { events, outcome: Err(e) };
                                        },
                                    }
                                },
                            }
                        }
                    },
                }
            },
        }
        s = s + 1;
    }
    let doc = merge_tables(sheets, &tables);
    LanguagePass { events, outcome: Ok(doc) }
}

/// Writes a document as indented JSON text.
pub fn render_document(doc: &JsonValue) -> (text: String)
    ensures
        plain(json_model(*doc)) ==> text@ == pretty_text(json_model(*doc), INDENT),
{
    json_pretty(doc, INDENT)
}

} // verus!
