//! A workbook as plain values: named sheets of rows of cells.

use vstd::prelude::*;
use vstd::string::*;
use crate::cell::{cell_text, cell_wf, get_cell_string, Cell, CellView};

verus! {

/// What could be read of a sheet.
#[derive(Debug)]
pub enum SheetContent {
    /// The rows of the sheet's used range, top to bottom.
    Rows(Vec<Vec<Cell>>),
    /// The sheet is present but could not be read; the text says why.
    Unreadable(String),
}

/// One sheet of a workbook.
#[derive(Debug)]
pub struct Sheet {
    pub name: String,
    pub content: SheetContent,
}

/// A workbook: its sheets in their order.
#[derive(Debug)]
pub struct Workbook {
    pub sheets: Vec<Sheet>,
}

/// The rows of a sheet as mathematical values.
pub type Grid = Seq<Seq<CellView>>;

/// The mathematical content of a [`SheetContent`].
pub enum ContentView {
    Rows(Grid),
    Unreadable(Seq<char>),
}

/// The mathematical content of a [`Sheet`].
pub struct SheetView {
    pub name: Seq<char>,
    pub content: ContentView,
}

impl View for SheetContent {
    type V = ContentView;

    open spec fn view(&self) -> ContentView {
        match *self {
            SheetContent::Rows(rows) => ContentView::Rows(rows.deep_view()),
            SheetContent::Unreadable(detail) => ContentView::Unreadable(detail@),
        }
    }
}

impl DeepView for SheetContent {
    type V = ContentView;

    open spec fn deep_view(&self) -> ContentView {
        self@
    }
}

impl View for Sheet {
    type V = SheetView;

    open spec fn view(&self) -> SheetView {
        SheetView { name: self.name@, content: self.content@ }
    }
}

impl DeepView for Sheet {
    type V = SheetView;

    open spec fn deep_view(&self) -> SheetView {
        self@
    }
}

impl View for Workbook {
    type V = Seq<SheetView>;

    open spec fn view(&self) -> Seq<SheetView> {
        self.sheets.deep_view()
    }
}

impl DeepView for Workbook {
    type V = Seq<SheetView>;

    open spec fn deep_view(&self) -> Seq<SheetView> {
        self@
    }
}

/// Whether every cell of a row can be normalized.
pub open spec fn row_wf(row: Seq<CellView>) -> bool {
    forall|j: int| 0 <= j < row.len() ==> cell_wf(#[trigger] row[j])
}

/// Whether every cell of a grid can be normalized.
pub open spec fn grid_wf(grid: Grid) -> bool {
    forall|i: int| 0 <= i < grid.len() ==> row_wf(#[trigger] grid[i])
}

/// Whether every cell of a sheet can be normalized.
pub open spec fn sheet_wf(sheet: SheetView) -> bool {
    match sheet.content {
        ContentView::Rows(grid) => grid_wf(grid),
        ContentView::Unreadable(_) => true,
    }
}

/// Whether every cell of a workbook can be normalized.
pub open spec fn workbook_wf(book: Seq<SheetView>) -> bool {
    forall|i: int| 0 <= i < book.len() ==> sheet_wf(#[trigger] book[i])
}

/// The index of the first sheet at or after `from` that bears `name`.
pub open spec fn find_from(book: Seq<SheetView>, name: Seq<char>, from: int) -> Option<int>
    decreases book.len() - from,
{
    if from < 0 || from >= book.len() {
        None
    } else if book[from].name == name {
        Some(from)
    } else {
        find_from(book, name, from + 1)
    }
}

/// The index of the first sheet that bears `name`.
pub open spec fn find_sheet(book: Seq<SheetView>, name: Seq<char>) -> Option<int> {
    find_from(book, name, 0)
}

/// Whether the workbook has a sheet of this name.
pub open spec fn has_sheet(book: Seq<SheetView>, name: Seq<char>) -> bool {
    exists|i: int| 0 <= i < book.len() && (#[trigger] book[i]).name == name
}

/// The text of the cell in column `col` of a row; empty where the row is
/// too short.
pub open spec fn text_at(row: Seq<CellView>, col: int) -> Seq<char> {
    if 0 <= col < row.len() {
        cell_text(row[col])
    } else {
        Seq::empty()
    }
}

/// What [`find_from`] finds is the first sheet of that name, and it finds
/// nothing only where no sheet from `from` on bears the name.
pub proof fn lemma_find_from(book: Seq<SheetView>, name: Seq<char>, from: int)
    requires
        0 <= from,
    ensures
        match find_from(book, name, from) {
            Some(i) => {
                &&& from <= i < book.len()
                &&& book[i].name == name
                &&& forall|j: int| from <= j < i ==> (#[trigger] book[j]).name != name
            },
            None => forall|j: int| from <= j < book.len() ==> (#[trigger] book[j]).name != name,
        },
    decreases book.len() - from,
{
    if from < book.len() && book[from].name != name {
        lemma_find_from(book, name, from + 1);
    }
}

/// A sheet is found exactly where the workbook has one of that name.
pub proof fn lemma_find_sheet_iff_has(book: Seq<SheetView>, name: Seq<char>)
    ensures
        find_sheet(book, name) is Some <==> has_sheet(book, name),
{
    lemma_find_from(book, name, 0);
}

/// Produces the text of the cell in column `col` of a row; empty where the
/// row is too short.
pub fn text_in_row(row: &Vec<Cell>, col: usize) -> (text: String)
    requires
        row_wf(row.deep_view()),
    ensures
        text@ == text_at(row.deep_view(), col as int),
{
    if col < row.len() {
        assert(row.deep_view()[col as int] == row@[col as int]@);
        get_cell_string(&row[col])
    } else {
        String::new()
    }
}

/// Tells whether every cell of a row can be normalized.
pub fn row_is_wf(row: &Vec<Cell>) -> (ok: bool)
    ensures
        ok == row_wf(row.deep_view()),
{
    let mut c: usize = 0;
    while c < row.len()
        invariant
            c <= row.len(),
            forall|j: int| 0 <= j < c ==> cell_wf(#[trigger] row.deep_view()[j]),
        decreases row.len() - c,
    {
        assert(row.deep_view()[c as int] == row@[c as int]@);
        if !row[c].is_wf() {
            return false;
        }
        c = c + 1;
    }
    true
}

/// Tells whether every cell of the rows can be normalized.
pub fn grid_is_wf(rows: &Vec<Vec<Cell>>) -> (ok: bool)
    ensures
        ok == grid_wf(rows.deep_view()),
{
    let mut r: usize = 0;
    while r < rows.len()
        invariant
            r <= rows.len(),
            forall|i: int| 0 <= i < r ==> row_wf(#[trigger] rows.deep_view()[i]),
        decreases rows.len() - r,
    {
        assert(rows.deep_view()[r as int] == rows@[r as int].deep_view());
        if !row_is_wf(&rows[r]) {
            return false;
        }
        r = r + 1;
    }
    true
}

impl Workbook {
    /// Whether every cell of this workbook can be normalized.
    pub open spec fn wf(&self) -> bool {
        workbook_wf(self@)
    }

    /// Tells whether every cell of this workbook can be normalized.
    pub fn is_wf(&self) -> (ok: bool)
        ensures
            ok == self.wf(),
    {
        let mut s: usize = 0;
        while s < self.sheets.len()
            invariant
                s <= self.sheets.len(),
                forall|i: int| 0 <= i < s ==> sheet_wf(#[trigger] self@[i]),
            decreases self.sheets.len() - s,
        {
            assert(self@[s as int] == self.sheets@[s as int]@);
            if let SheetContent::Rows(rows) = &self.sheets[s].content {
                if !grid_is_wf(rows) {
                    assert(!sheet_wf(self@[s as int]));
                    return false;
                }
            }
            s = s + 1;
        }
        true
    }

    /// Looks a sheet up by its name; where several bear it, the first counts.
    pub fn find(&self, name: &String) -> (found: Option<usize>)
        ensures
            match found {
                Some(i) => find_sheet(self@, name@) == Some(i as int) && i < self.sheets.len(),
                None => find_sheet(self@, name@) is None,
            },
    {
        let mut i: usize = 0;
        while i < self.sheets.len()
            invariant
                i <= self.sheets.len(),
                find_sheet(self@, name@) == find_from(self@, name@, i as int),
            decreases self.sheets.len() - i,
        {
            assert(self@[i as int] == self.sheets@[i as int]@);
            if self.sheets[i].name == *name {
                return Some(i);
            }
            i = i + 1;
        }
        None
    }
}

} // verus!
