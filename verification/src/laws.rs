//! What holds of every export: laws that relate the scan, the merge and the
//! run to each other.

use vstd::prelude::*;
use crate::assemble::{
    absorb,
    collect_upto,
    column_from,
    language_column,
    language_document,
    language_pass,
    merge_step,
    merge_upto,
    scan_row,
    scan_rows,
    sheet_step,
    table_object,
    PassView,
    ScanView,
};
use crate::assoc::{
    distinct_keys,
    has_key,
    lemma_lookup_iff_has_key,
    lemma_lookup_upsert_other,
    lemma_lookup_upsert_same,
    lemma_position_from,
    lemma_upsert_distinct,
    lookup,
    position,
    upsert,
};
use crate::cell::{cell_text, CellView};
use crate::document::{members_of, JsonModel, Members};
use crate::error::ErrorView;
use crate::placeholder::balanced;
use crate::registry::{SheetConfigView, SheetMode};
use crate::table::Entries;
use crate::workbook::{find_sheet, text_at, ContentView, Grid, SheetView};

verus! {

/// Whether a sheet of the registry sets the top-level key `key` of the
/// document: in root mode where its translations hold the key, in any other
/// mode where the sheet's name is the key.
pub open spec fn writes(
    tables: Seq<(Seq<char>, Entries)>,
    config: SheetConfigView,
    key: Seq<char>,
) -> bool {
    match lookup(tables, config.name) {
        None => false,
        Some(table) => if config.mode == SheetMode::Root {
            has_key(table, key)
        } else {
            config.name == key
        },
    }
}

/// Whether the translations of every sheet have distinct keys.
pub open spec fn tables_distinct(tables: Seq<(Seq<char>, Entries)>) -> bool {
    forall|i: int| 0 <= i < tables.len() ==> distinct_keys(#[trigger] tables[i].1)
}

/// Translations whose keys differ from `key` leave the value of `key` as
/// it was.
pub proof fn lemma_absorb_other(members: Members, table: Entries, n: int, key: Seq<char>)
    requires
        0 <= n <= table.len(),
        forall|j: int| 0 <= j < n ==> (#[trigger] table[j]).0 != key,
    ensures
        lookup(absorb(members, table, n), key) == lookup(members, key),
    decreases n,
{
    if n > 0 {
        lemma_absorb_other(members, table, n - 1, key);
        lemma_lookup_upsert_other(
            absorb(members, table, n - 1),
            table[n - 1].0,
            JsonModel::Text(table[n - 1].1),
            key,
        );
    }
}

/// After translations were set, a key has the value of the last of them
/// that bears it.
pub proof fn lemma_absorb_last(members: Members, table: Entries, n: int, key: Seq<char>, j: int)
    requires
        0 <= j < n <= table.len(),
        table[j].0 == key,
        forall|m: int| j < m < n ==> (#[trigger] table[m]).0 != key,
    ensures
        lookup(absorb(members, table, n), key) == Some(JsonModel::Text(table[j].1)),
    decreases n,
{
    let before = absorb(members, table, n - 1);
    if j == n - 1 {
        lemma_lookup_upsert_same(before, key, JsonModel::Text(table[j].1));
    } else {
        lemma_absorb_last(members, table, n - 1, key, j);
        lemma_lookup_upsert_other(before, table[n - 1].0, JsonModel::Text(table[n - 1].1), key);
    }
}

/// After translations with distinct keys were set, each of their keys has
/// its translation as a string.
pub proof fn lemma_absorb_defines(members: Members, table: Entries, key: Seq<char>)
    requires
        distinct_keys(table),
        has_key(table, key),
    ensures
        lookup(table, key) is Some,
        lookup(absorb(members, table, table.len() as int), key) == Some(
            JsonModel::Text(lookup(table, key)->0),
        ),
{
    lemma_lookup_iff_has_key(table, key);
    lemma_position_from(table, key, 0);
    let j = position(table, key)->0;
    lemma_absorb_last(members, table, table.len() as int, key, j);
}

/// A sheet that does not set a key leaves the key's value as it was.
pub proof fn lemma_merge_step_other(
    members: Members,
    tables: Seq<(Seq<char>, Entries)>,
    config: SheetConfigView,
    key: Seq<char>,
)
    requires
        !writes(tables, config, key),
    ensures
        lookup(merge_step(members, tables, config), key) == lookup(members, key),
{
    match lookup(tables, config.name) {
        None => {},
        Some(table) => {
            if config.mode == SheetMode::Root {
                assert forall|j: int| 0 <= j < table.len() implies (#[trigger] table[j]).0
                    != key by {
                    if table[j].0 == key {
                        assert(has_key(table, key));
                    }
                }
                lemma_absorb_other(members, table, table.len() as int, key);
            } else {
                lemma_lookup_upsert_other(members, config.name, table_object(table), key);
            }
        },
    }
}

/// Sheets that do not set a key leave the key's value as it was.
pub proof fn lemma_merge_unwritten(
    sheets: Seq<SheetConfigView>,
    tables: Seq<(Seq<char>, Entries)>,
    key: Seq<char>,
    from: int,
    n: int,
)
    requires
        0 <= from <= n <= sheets.len(),
        forall|m: int| from <= m < n ==> !writes(tables, #[trigger] sheets[m], key),
    ensures
        lookup(merge_upto(sheets, tables, n), key) == lookup(merge_upto(sheets, tables, from), key),
    decreases n - from,
{
    if from < n {
        lemma_merge_unwritten(sheets, tables, key, from, n - 1);
        lemma_merge_step_other(merge_upto(sheets, tables, n - 1), tables, sheets[n - 1], key);
    }
}

/// A key's value in the merged document comes from the last sheet of the
/// registry that sets it: a string from a sheet in root mode, the object of
/// the sheet's translations from any other sheet.
pub proof fn lemma_last_writer_wins(
    sheets: Seq<SheetConfigView>,
    tables: Seq<(Seq<char>, Entries)>,
    key: Seq<char>,
    j: int,
)
    requires
        tables_distinct(tables),
        0 <= j < sheets.len(),
        writes(tables, sheets[j], key),
        forall|m: int| j < m < sheets.len() ==> !writes(tables, #[trigger] sheets[m], key),
    ensures
        lookup(tables, sheets[j].name) is Some,
        lookup(merge_upto(sheets, tables, sheets.len() as int), key) == Some(
            if sheets[j].mode == SheetMode::Root {
                JsonModel::Text(lookup(lookup(tables, sheets[j].name)->0, key)->0)
            } else {
                table_object(lookup(tables, sheets[j].name)->0)
            },
        ),
{
    let table = lookup(tables, sheets[j].name)->0;
    let before = merge_upto(sheets, tables, j);
    lemma_merge_unwritten(sheets, tables, key, j + 1, sheets.len() as int);
    assert(merge_upto(sheets, tables, j + 1) == merge_step(before, tables, sheets[j]));
    if sheets[j].mode == SheetMode::Root {
        lemma_position_from(tables, sheets[j].name, 0);
        lemma_absorb_defines(before, table, key);
    } else {
        lemma_lookup_upsert_same(before, sheets[j].name, table_object(table));
    }
}

/// The translations that a scan collects have distinct keys.
pub proof fn lemma_scan_distinct(sheet: Seq<char>, grid: Grid, code: Seq<char>, col: int, n: int)
    ensures
        distinct_keys(scan_rows(sheet, grid, code, col, n).table),
    decreases n,
{
    if n > 1 {
        lemma_scan_distinct(sheet, grid, code, col, n - 1);
        let before = scan_rows(sheet, grid, code, col, n - 1);
        lemma_upsert_distinct(before.table, text_at(grid[n - 1], 0), text_at(grid[n - 1], col));
    }
}

/// Setting the translations of a sheet keeps the keys of every sheet's
/// translations distinct.
pub proof fn lemma_tables_upsert_distinct(
    tables: Seq<(Seq<char>, Entries)>,
    name: Seq<char>,
    table: Entries,
)
    requires
        tables_distinct(tables),
        distinct_keys(table),
    ensures
        tables_distinct(upsert(tables, name, table)),
{
    let after = upsert(tables, name, table);
    lemma_position_from(tables, name, 0);
    assert forall|i: int| 0 <= i < after.len() implies distinct_keys(#[trigger] after[i].1) by {
        if i < tables.len() && after[i] != (name, table) {
            assert(after[i] == tables[i]);
        }
    }
}

/// The translations that a pass collects have distinct keys, sheet by
/// sheet.
pub proof fn lemma_pass_distinct(
    book: Seq<SheetView>,
    sheets: Seq<SheetConfigView>,
    code: Seq<char>,
    n: int,
)
    ensures
        tables_distinct(collect_upto(book, sheets, code, n).tables),
    decreases n,
{
    if n > 0 {
        lemma_pass_distinct(book, sheets, code, n - 1);
        let before = collect_upto(book, sheets, code, n - 1);
        let config = sheets[n - 1];
        if before.failure is None {
            match find_sheet(book, config.name) {
                None => {},
                Some(i) => match book[i].content {
                    ContentView::Unreadable(_) => {},
                    ContentView::Rows(grid) => match language_column(grid, code) {
                        None => {},
                        Some(col) => {
                            let scan = scan_rows(config.name, grid, code, col, grid.len() as int);
                            lemma_scan_distinct(config.name, grid, code, col, grid.len() as int);
                            if scan.failure is None {
                                lemma_tables_upsert_distinct(before.tables, config.name, scan.table);
                            }
                        },
                    },
                },
            }
        }
    }
}

/// A key that only one sheet of the registry sets, a sheet in root mode,
/// stands at the top level of the language's document with the value that
/// the sheet gives it.
pub proof fn law_root_key_at_top_level(
    book: Seq<SheetView>,
    sheets: Seq<SheetConfigView>,
    code: Seq<char>,
    i: int,
    key: Seq<char>,
    value: Seq<char>,
)
    requires
        0 <= i < sheets.len(),
        sheets[i].mode == SheetMode::Root,
        lookup(language_pass(book, sheets, code).tables, sheets[i].name) is Some,
        lookup(lookup(language_pass(book, sheets, code).tables, sheets[i].name)->0, key) == Some(
            value,
        ),
        forall|m: int|
            0 <= m < sheets.len() && m != i ==> !writes(
                language_pass(book, sheets, code).tables,
                #[trigger] sheets[m],
                key,
            ),
    ensures
        lookup(language_document(book, sheets, code), key) == Some(JsonModel::Text(value)),
{
    let tables = language_pass(book, sheets, code).tables;
    lemma_pass_distinct(book, sheets, code, sheets.len() as int);
    lemma_lookup_iff_has_key(lookup(tables, sheets[i].name)->0, key);
    lemma_last_writer_wins(sheets, tables, key, i);
}

/// The translations of a sheet in any mode but root stand in the
/// language's document as an object under the sheet's name, provided that
/// no later sheet sets that name as a key; each key of the sheet has its
/// value inside that object.
pub proof fn law_nested_key_under_sheet_name(
    book: Seq<SheetView>,
    sheets: Seq<SheetConfigView>,
    code: Seq<char>,
    i: int,
    key: Seq<char>,
    value: Seq<char>,
)
    requires
        0 <= i < sheets.len(),
        sheets[i].mode != SheetMode::Root,
        lookup(language_pass(book, sheets, code).tables, sheets[i].name) is Some,
        lookup(lookup(language_pass(book, sheets, code).tables, sheets[i].name)->0, key) == Some(
            value,
        ),
        forall|m: int|
            i < m < sheets.len() ==> !writes(
                language_pass(book, sheets, code).tables,
                #[trigger] sheets[m],
                sheets[i].name,
            ),
    ensures
        lookup(language_document(book, sheets, code), sheets[i].name) is Some,
        lookup(
            members_of(lookup(language_document(book, sheets, code), sheets[i].name)->0),
            key,
        ) == Some(JsonModel::Text(value)),
{
    let tables = language_pass(book, sheets, code).tables;
    let table = lookup(tables, sheets[i].name)->0;
    lemma_pass_distinct(book, sheets, code, sheets.len() as int);
    lemma_last_writer_wins(sheets, tables, sheets[i].name, i);
    lemma_position_from(tables, sheets[i].name, 0);
    lemma_lookup_iff_has_key(table, key);
    lemma_absorb_defines(Seq::empty(), table, key);
}

/// Where two sheets in root mode both define a key, and no sheet after the
/// later of them sets it, the document has the value of the later sheet.
pub proof fn law_later_root_sheet_wins(
    book: Seq<SheetView>,
    sheets: Seq<SheetConfigView>,
    code: Seq<char>,
    i: int,
    j: int,
    key: Seq<char>,
)
    requires
        0 <= i < j < sheets.len(),
        sheets[i].mode == SheetMode::Root,
        sheets[j].mode == SheetMode::Root,
        writes(language_pass(book, sheets, code).tables, sheets[i], key),
        writes(language_pass(book, sheets, code).tables, sheets[j], key),
        forall|m: int|
            j < m < sheets.len() ==> !writes(
                language_pass(book, sheets, code).tables,
                #[trigger] sheets[m],
                key,
            ),
    ensures
        lookup(language_pass(book, sheets, code).tables, sheets[j].name) is Some,
        lookup(language_document(book, sheets, code), key) == Some(
            JsonModel::Text(
                lookup(lookup(language_pass(book, sheets, code).tables, sheets[j].name)->0, key)->0,
            ),
        ),
{
    let tables = language_pass(book, sheets, code).tables;
    lemma_pass_distinct(book, sheets, code, sheets.len() as int);
    lemma_last_writer_wins(sheets, tables, key, j);
}

/// A row whose first cell is empty leaves a scan as it was: no key, no
/// warning, no failure.
pub proof fn law_row_without_key_is_skipped(
    sheet: Seq<char>,
    code: Seq<char>,
    col: int,
    before: ScanView,
    row: Seq<CellView>,
    number: int,
)
    requires
        row.len() == 0 || cell_text(row[0]).len() == 0,
    ensures
        scan_row(sheet, code, col, before, row, number) == before,
{
}

/// A value whose braces do not balance, in a row that has a key, ends the
/// scan with a placeholder failure that names the sheet, the row, the key
/// and the value; nothing is recorded for the row.
pub proof fn law_unbalanced_value_fails_the_scan(
    sheet: Seq<char>,
    code: Seq<char>,
    col: int,
    before: ScanView,
    row: Seq<CellView>,
    number: int,
)
    requires
        before.failure is None,
        text_at(row, 0).len() > 0,
        !balanced(text_at(row, col)),
    ensures
        scan_row(sheet, code, col, before, row, number).failure == Some(
            ErrorView::PlaceholderError {
                sheet,
                row: number,
                key: text_at(row, 0),
                value: text_at(row, col),
            },
        ),
        scan_row(sheet, code, col, before, row, number).table == before.table,
{
}

/// What [`column_from`] finds is the first header cell with the code, and
/// it finds nothing only where no header cell from `from` on has it.
pub proof fn lemma_column_from(header: Seq<CellView>, code: Seq<char>, from: int)
    requires
        0 <= from,
    ensures
        match column_from(header, code, from) {
            Some(j) => {
                &&& from <= j < header.len()
                &&& cell_text(header[j]) == code
                &&& forall|k: int| from <= k < j ==> cell_text(#[trigger] header[k]) != code
            },
            None => forall|k: int| from <= k < header.len() ==> cell_text(#[trigger] header[k]) != code,
        },
    decreases header.len() - from,
{
    if from < header.len() && cell_text(header[from]) != code {
        lemma_column_from(header, code, from + 1);
    }
}

/// Whether a sheet of the workbook has a column for the language: the
/// sheet is there, could be read, and some cell of its first row reads as
/// the language code.
pub open spec fn has_language_column(book: Seq<SheetView>, name: Seq<char>, code: Seq<char>) -> bool {
    match find_sheet(book, name) {
        None => false,
        Some(i) => match book[i].content {
            ContentView::Unreadable(_) => false,
            ContentView::Rows(grid) => grid.len() > 0 && exists|j: int|
                0 <= j < grid[0].len() && cell_text(#[trigger] grid[0][j]) == code,
        },
    }
}

/// A language has a column in a sheet exactly where one is found.
pub proof fn lemma_language_column_iff(grid: Grid, code: Seq<char>)
    ensures
        language_column(grid, code) is Some <==> grid.len() > 0 && exists|j: int|
            0 <= j < grid[0].len() && cell_text(#[trigger] grid[0][j]) == code,
{
    if grid.len() > 0 {
        lemma_column_from(grid[0], code, 0);
    }
}

/// A pass holds translations only of sheets that have a column for the
/// language.
pub proof fn lemma_pass_tables_keys(
    book: Seq<SheetView>,
    sheets: Seq<SheetConfigView>,
    code: Seq<char>,
    n: int,
    name: Seq<char>,
)
    requires
        has_key(collect_upto(book, sheets, code, n).tables, name),
    ensures
        has_language_column(book, name, code),
    decreases n,
{
    if n > 0 {
        let before = collect_upto(book, sheets, code, n - 1);
        let after = collect_upto(book, sheets, code, n);
        let config = sheets[n - 1];
        if after.tables == before.tables {
            lemma_pass_tables_keys(book, sheets, code, n - 1, name);
        } else {
            let i = find_sheet(book, config.name)->0;
            let grid = book[i].content->Rows_0;
            let col = language_column(grid, code)->0;
            let scan = scan_rows(config.name, grid, code, col, grid.len() as int);
            crate::assoc::lemma_upsert_has_key(before.tables, config.name, scan.table, name);
            if name == config.name {
                lemma_language_column_iff(grid, code);
            } else {
                lemma_pass_tables_keys(book, sheets, code, n - 1, name);
            }
        }
    } else {
        assert(collect_upto(book, sheets, code, n).tables.len() == 0);
    }
}

/// The scan of a sheet that has a column for the language.
pub open spec fn sheet_scan(book: Seq<SheetView>, name: Seq<char>, code: Seq<char>) -> ScanView
    recommends
        has_language_column(book, name, code),
{
    let grid = book[find_sheet(book, name)->0].content->Rows_0;
    scan_rows(name, grid, code, language_column(grid, code)->0, grid.len() as int)
}

/// The translations that a pass holds under a sheet's name are those that
/// the scan of that sheet collects.
pub proof fn lemma_pass_tables_come_from_scans(
    book: Seq<SheetView>,
    sheets: Seq<SheetConfigView>,
    code: Seq<char>,
    n: int,
    name: Seq<char>,
)
    requires
        has_key(collect_upto(book, sheets, code, n).tables, name),
    ensures
        lookup(collect_upto(book, sheets, code, n).tables, name) == Some(
            sheet_scan(book, name, code).table,
        ),
    decreases n,
{
    if n > 0 {
        let before = collect_upto(book, sheets, code, n - 1);
        let after = collect_upto(book, sheets, code, n);
        let config = sheets[n - 1];
        if after.tables == before.tables {
            lemma_pass_tables_come_from_scans(book, sheets, code, n - 1, name);
        } else {
            let scan = sheet_scan(book, config.name, code);
            crate::assoc::lemma_upsert_has_key(before.tables, config.name, scan.table, name);
            if name == config.name {
                lemma_lookup_upsert_same(before.tables, config.name, scan.table);
            } else {
                lemma_lookup_upsert_other(before.tables, config.name, scan.table, name);
                lemma_pass_tables_come_from_scans(book, sheets, code, n - 1, name);
            }
        }
    } else {
        assert(collect_upto(book, sheets, code, n).tables.len() == 0);
    }
}

/// Every translation that a scan collects has a key that is not empty and a
/// value whose braces balance.
pub proof fn law_scanned_translations_are_valid(
    sheet: Seq<char>,
    grid: Grid,
    code: Seq<char>,
    col: int,
    n: int,
)
    ensures
        distinct_keys(scan_rows(sheet, grid, code, col, n).table),
        forall|i: int|
            0 <= i < scan_rows(sheet, grid, code, col, n).table.len() ==> {
                let entry = #[trigger] scan_rows(sheet, grid, code, col, n).table[i];
                entry.0.len() > 0 && balanced(entry.1)
            },
    decreases n,
{
    lemma_scan_distinct(sheet, grid, code, col, n);
    if n > 1 {
        law_scanned_translations_are_valid(sheet, grid, code, col, n - 1);
        let before = scan_rows(sheet, grid, code, col, n - 1);
        let after = scan_rows(sheet, grid, code, col, n);
        let key = text_at(grid[n - 1], 0);
        let value = text_at(grid[n - 1], col);
        lemma_position_from(before.table, key, 0);
        assert forall|i: int| 0 <= i < after.table.len() implies {
            let entry = #[trigger] after.table[i];
            entry.0.len() > 0 && balanced(entry.1)
        } by {
            if after.table != before.table {
                if i < before.table.len() && after.table[i] != (key, value) {
                    assert(after.table[i] == before.table[i]);
                }
            }
        }
    }
}

/// A sheet that lacks a column for a language contributes nothing to that
/// language: scanning it leaves the pass as it was, with no warning and no
/// failure; the pass holds no translations under its name; and merging it
/// leaves the document as it was.
pub proof fn law_sheet_without_column_contributes_nothing(
    book: Seq<SheetView>,
    sheets: Seq<SheetConfigView>,
    code: Seq<char>,
    name: Seq<char>,
)
    requires
        find_sheet(book, name) is Some,
        book[find_sheet(book, name)->0].content is Rows,
        !has_language_column(book, name, code),
    ensures
        forall|before: PassView, mode: SheetMode| #[trigger]
            sheet_step(book, code, before, SheetConfigView { name, mode }) == before,
        lookup(language_pass(book, sheets, code).tables, name) is None,
        forall|members: Members, mode: SheetMode| #[trigger]
            merge_step(
                members,
                language_pass(book, sheets, code).tables,
                SheetConfigView { name, mode },
            ) == members,
{
    let grid = book[find_sheet(book, name)->0].content->Rows_0;
    lemma_language_column_iff(grid, code);
    let tables = language_pass(book, sheets, code).tables;
    if has_key(tables, name) {
        lemma_pass_tables_keys(book, sheets, code, sheets.len() as int, name);
    }
    lemma_lookup_iff_has_key(tables, name);
}

} // verus!
