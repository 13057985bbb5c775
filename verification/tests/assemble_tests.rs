use lingo_export::assemble::{
    assemble_language, find_column, merge_tables, render_document, scan_sheet,
};
use lingo_export::cell::Cell;
use lingo_export::error::ExportError;
use lingo_export::progress::{LogType, ProgressEvent};
use lingo_export::registry::{SheetConfig, SheetMode};
use lingo_export::workbook::{Sheet, SheetContent, Workbook};

fn text(s: &str) -> Cell {
    Cell::Text(String::from(s))
}

fn row(cells: &[&str]) -> Vec<Cell> {
    cells.iter().map(|c| text(c)).collect()
}

fn sheet(name: &str, rows: Vec<Vec<Cell>>) -> Sheet {
    Sheet { name: String::from(name), content: SheetContent::Rows(rows) }
}

fn config(name: &str, mode: SheetMode) -> SheetConfig {
    SheetConfig { name: String::from(name), mode }
}

fn messages(events: &[ProgressEvent]) -> Vec<(String, LogType)> {
    events.iter().map(|e| (e.message.clone(), e.kind)).collect()
}

#[test]
fn first_matching_header_is_the_column() {
    let header = row(&["key", "en", "fr", "en"]);
    assert_eq!(find_column(&header, &String::from("en")), Some(1));
    assert_eq!(find_column(&header, &String::from("fr")), Some(2));
    assert_eq!(find_column(&header, &String::from("key")), Some(0));
    assert_eq!(find_column(&header, &String::from("de")), None);
    assert_eq!(find_column(&header, &String::from("EN")), None);
    assert_eq!(find_column(&Vec::new(), &String::from("en")), None);
}

#[test]
fn scan_collects_keys_in_row_order() {
    let rows = vec![row(&["key", "en"]), row(&["a", "A"]), row(&["b", "B"]), row(&["c", "C"])];
    let mut events = Vec::new();
    let table =
        scan_sheet(&String::from("S"), &rows, &String::from("en"), 1, &mut events).unwrap();
    let got: Vec<(&str, &str)> = table.iter().map(|(k, v)| (k.as_str(), v.as_str())).collect();
    assert_eq!(got, vec![("a", "A"), ("b", "B"), ("c", "C")]);
    assert!(events.is_empty());
}

#[test]
fn later_row_with_the_same_key_wins_and_keeps_the_place() {
    let rows = vec![
        row(&["key", "en"]),
        row(&["a", "first"]),
        row(&["b", "B"]),
        row(&["a", "second"]),
    ];
    let mut events = Vec::new();
    let table =
        scan_sheet(&String::from("S"), &rows, &String::from("en"), 1, &mut events).unwrap();
    let got: Vec<(&str, &str)> = table.iter().map(|(k, v)| (k.as_str(), v.as_str())).collect();
    assert_eq!(got, vec![("a", "second"), ("b", "B")]);
}

#[test]
fn rows_with_empty_first_column_are_skipped() {
    let rows = vec![
        row(&["key", "en"]),
        vec![Cell::Empty, text("orphan {")],
        row(&["", ""]),
        vec![],
        row(&["a", "A"]),
    ];
    let mut events = Vec::new();
    let table =
        scan_sheet(&String::from("S"), &rows, &String::from("en"), 1, &mut events).unwrap();
    let got: Vec<(&str, &str)> = table.iter().map(|(k, v)| (k.as_str(), v.as_str())).collect();
    assert_eq!(got, vec![("a", "A")]);
    assert!(events.is_empty());
}

#[test]
fn empty_values_raise_a_warning_and_are_kept() {
    let rows = vec![row(&["key", "en", "fr"]), row(&["a", "A"]), row(&["b", "B", ""])];
    let mut events = vec![ProgressEvent { message: String::from("earlier"), kind: LogType::Info }];
    let table =
        scan_sheet(&String::from("Menu"), &rows, &String::from("fr"), 2, &mut events).unwrap();
    let got: Vec<(&str, &str)> = table.iter().map(|(k, v)| (k.as_str(), v.as_str())).collect();
    assert_eq!(got, vec![("a", ""), ("b", "")]);
    assert_eq!(
        messages(&events),
        vec![
            (String::from("earlier"), LogType::Info),
            (String::from("空值警告 Sheet: 'Menu' 行: 2 列: 'fr' Key: 'a'"), LogType::Warning),
            (String::from("空值警告 Sheet: 'Menu' 行: 3 列: 'fr' Key: 'b'"), LogType::Warning),
        ]
    );
}

#[test]
fn unbalanced_value_ends_the_scan() {
    let rows = vec![
        row(&["key", "en"]),
        row(&["a", ""]),
        row(&["b", "Hello {name"]),
        row(&["c", ""]),
    ];
    let mut events = Vec::new();
    let e = scan_sheet(&String::from("Common"), &rows, &String::from("en"), 1, &mut events)
        .unwrap_err();
    match &e {
        ExportError::PlaceholderError { sheet, row, key, value } => {
            assert_eq!(sheet, "Common");
            assert_eq!(*row, 3);
            assert_eq!(key, "b");
            assert_eq!(value, "Hello {name");
        }
        other => panic!("unexpected failure {:?}", other),
    }
    assert_eq!(
        e.message(),
        "占位符校验失败 Sheet: 'Common' 行: 3 Key: 'b' 值: 'Hello {name' 错误: 占位符不完整: Hello {name"
    );
    assert_eq!(
        messages(&events),
        vec![(String::from("空值警告 Sheet: 'Common' 行: 2 列: 'en' Key: 'a'"), LogType::Warning)]
    );
}

#[test]
fn scan_of_a_header_alone_is_empty() {
    let rows = vec![row(&["key", "en"])];
    let mut events = Vec::new();
    let table =
        scan_sheet(&String::from("S"), &rows, &String::from("en"), 1, &mut events).unwrap();
    assert!(table.is_empty());
    let none: Vec<Vec<Cell>> = Vec::new();
    let table =
        scan_sheet(&String::from("S"), &none, &String::from("en"), 1, &mut events).unwrap();
    assert!(table.is_empty());
}

#[test]
fn values_are_normalized_cells() {
    let rows = vec![
        row(&["key", "en"]),
        vec![text("count"), Cell::Int(3)],
        vec![Cell::Int(7), Cell::Bool(false)],
    ];
    let mut events = Vec::new();
    let table =
        scan_sheet(&String::from("S"), &rows, &String::from("en"), 1, &mut events).unwrap();
    let got: Vec<(&str, &str)> = table.iter().map(|(k, v)| (k.as_str(), v.as_str())).collect();
    assert_eq!(got, vec![("count", "3"), ("7", "false")]);
}

fn two_sheet_book() -> Workbook {
    Workbook {
        sheets: vec![
            sheet("Common", vec![row(&["key", "en"]), row(&["greeting", "Hello {name}"])]),
            sheet("Menu", vec![row(&["key", "en"]), row(&["file", "File"])]),
        ],
    }
}

#[test]
fn root_keys_are_flat_and_other_sheets_nest() {
    let book = two_sheet_book();
    let sheets = vec![config("Common", SheetMode::Root), config("Menu", SheetMode::Nested)];
    let pass = assemble_language(&book, &sheets, &String::from("en"));
    assert!(pass.events.is_empty());
    let doc = pass.outcome.unwrap();
    let expected = json::parse(r#"{"greeting":"Hello {name}","Menu":{"file":"File"}}"#).unwrap();
    assert_eq!(doc, expected);
    assert_eq!(doc.dump(), r#"{"greeting":"Hello {name}","Menu":{"file":"File"}}"#);
    assert_eq!(
        render_document(&doc),
        "{\n  \"greeting\": \"Hello {name}\",\n  \"Menu\": {\n    \"file\": \"File\"\n  }\n}"
    );
}

#[test]
fn the_same_key_nests_under_the_sheet_name_in_other_modes() {
    let book = two_sheet_book();
    let sheets = vec![config("Common", SheetMode::Nested), config("Menu", SheetMode::Root)];
    let doc = assemble_language(&book, &sheets, &String::from("en")).outcome.unwrap();
    assert_eq!(doc.dump(), r#"{"Common":{"greeting":"Hello {name}"},"file":"File"}"#);
    assert!(doc["greeting"].is_null());
    assert_eq!(doc["Common"]["greeting"], "Hello {name}");
}

#[test]
fn later_root_sheet_wins_and_the_key_keeps_its_place() {
    let book = Workbook {
        sheets: vec![
            sheet("A", vec![row(&["key", "en"]), row(&["x", "from A"]), row(&["y", "Y"])]),
            sheet("B", vec![row(&["key", "en"]), row(&["z", "Z"]), row(&["x", "from B"])]),
        ],
    };
    let sheets = vec![config("A", SheetMode::Root), config("B", SheetMode::Root)];
    let doc = assemble_language(&book, &sheets, &String::from("en")).outcome.unwrap();
    assert_eq!(doc["x"], "from B");
    assert_eq!(doc.dump(), r#"{"x":"from B","y":"Y","z":"Z"}"#);
    let sheets = vec![config("B", SheetMode::Root), config("A", SheetMode::Root)];
    let doc = assemble_language(&book, &sheets, &String::from("en")).outcome.unwrap();
    assert_eq!(doc["x"], "from A");
}

#[test]
fn sheet_without_the_language_column_contributes_nothing() {
    let book = Workbook {
        sheets: vec![
            sheet("Common", vec![row(&["key", "en"]), row(&["a", "A"])]),
            sheet("French", vec![row(&["key", "fr"]), row(&["b", "B {"])]),
            sheet("Bare", vec![]),
        ],
    };
    let sheets = vec![
        config("Common", SheetMode::Root),
        config("French", SheetMode::Nested),
        config("Bare", SheetMode::Nested),
    ];
    let pass = assemble_language(&book, &sheets, &String::from("en"));
    assert!(pass.events.is_empty());
    assert_eq!(pass.outcome.unwrap().dump(), r#"{"a":"A"}"#);
}

#[test]
fn missing_and_unreadable_sheets_raise_warnings() {
    let book = Workbook {
        sheets: vec![
            sheet("Common", vec![row(&["key", "en"]), row(&["a", "A"])]),
            Sheet {
                name: String::from("Broken"),
                content: SheetContent::Unreadable(String::from("bad xml")),
            },
        ],
    };
    let sheets = vec![
        config("Gone", SheetMode::Nested),
        config("Broken", SheetMode::Root),
        config("Common", SheetMode::Nested),
    ];
    let pass = assemble_language(&book, &sheets, &String::from("en"));
    assert_eq!(
        messages(&pass.events),
        vec![
            (String::from("⚠️ 找不到工作表: Gone"), LogType::Warning),
            (String::from("⚠️ 读取工作表 Broken 失败: bad xml"), LogType::Warning),
        ]
    );
    assert_eq!(pass.outcome.unwrap().dump(), r#"{"Common":{"a":"A"}}"#);
}

#[test]
fn failure_in_a_later_sheet_ends_the_pass() {
    let book = Workbook {
        sheets: vec![
            sheet("A", vec![row(&["key", "en"]), row(&["a", ""])]),
            sheet("B", vec![row(&["key", "en"]), row(&["b", "}"])]),
            sheet("C", vec![row(&["key", "en"]), row(&["c", ""])]),
        ],
    };
    let sheets = vec![
        config("A", SheetMode::Root),
        config("B", SheetMode::Root),
        config("C", SheetMode::Root),
    ];
    let pass = assemble_language(&book, &sheets, &String::from("en"));
    assert_eq!(pass.events.len(), 1);
    assert!(matches!(pass.outcome, Err(ExportError::PlaceholderError { .. })));
}

#[test]
fn repeated_registry_entries_share_one_table() {
    let book = Workbook {
        sheets: vec![sheet("A", vec![row(&["key", "en"]), row(&["k", "v"])])],
    };
    let sheets = vec![config("A", SheetMode::Root), config("A", SheetMode::Nested)];
    let doc = assemble_language(&book, &sheets, &String::from("en")).outcome.unwrap();
    assert_eq!(doc.dump(), r#"{"k":"v","A":{"k":"v"}}"#);
}

#[test]
fn nested_sheet_replaces_a_root_key_of_its_name() {
    let book = Workbook {
        sheets: vec![
            sheet("A", vec![row(&["key", "en"]), row(&["B", "text"]), row(&["c", "C"])]),
            sheet("B", vec![row(&["key", "en"]), row(&["k", "v"])]),
        ],
    };
    let sheets = vec![config("A", SheetMode::Root), config("B", SheetMode::Nested)];
    let doc = assemble_language(&book, &sheets, &String::from("en")).outcome.unwrap();
    assert_eq!(doc.dump(), r#"{"B":{"k":"v"},"c":"C"}"#);
}

#[test]
fn merge_of_nothing_is_an_empty_object() {
    let tables = indexmap::IndexMap::new();
    let doc = merge_tables(&vec![config("A", SheetMode::Root)], &tables);
    assert!(doc.is_object());
    assert_eq!(doc.dump(), "{}");
    assert_eq!(render_document(&doc), "{}");
}

#[test]
fn merge_reads_tables_by_sheet_name() {
    let mut a = indexmap::IndexMap::new();
    a.insert(String::from("k1"), String::from("v1"));
    a.insert(String::from("k2"), String::from("v\"2\""));
    let mut tables = indexmap::IndexMap::new();
    tables.insert(String::from("A"), a);
    let sheets = vec![
        config("Z", SheetMode::Root),
        config("A", SheetMode::Nested),
        config("A", SheetMode::Root),
    ];
    let doc = merge_tables(&sheets, &tables);
    assert_eq!(doc.dump(), r#"{"A":{"k1":"v1","k2":"v\"2\""},"k1":"v1","k2":"v\"2\""}"#);
}

#[test]
fn values_missing_from_short_rows_are_empty() {
    let book = Workbook {
        sheets: vec![sheet("A", vec![row(&["key", "en", "fr"]), row(&["k"])])],
    };
    let sheets = vec![config("A", SheetMode::Root)];
    let pass = assemble_language(&book, &sheets, &String::from("fr"));
    assert_eq!(
        messages(&pass.events),
        vec![(String::from("空值警告 Sheet: 'A' 行: 2 列: 'fr' Key: 'k'"), LogType::Warning)]
    );
    assert_eq!(pass.outcome.unwrap().dump(), r#"{"k":""}"#);
}
