use lingo_export::cell::Cell;
use lingo_export::error::{ControlSheet, ExportError};
use lingo_export::progress::LogType;
use lingo_export::action::{kind_of, quoted_text, shown_text, Action, Awaiting, Report};
use lingo_export::plan::{export_folder_name, language_file_name, make_plan};
use lingo_export::run::{ExportRun, Turn};
use lingo_export::workbook::{Sheet, SheetContent, Workbook};

fn text(s: &str) -> Cell {
    Cell::Text(String::from(s))
}

fn row(cells: &[&str]) -> Vec<Cell> {
    cells.iter().map(|c| text(c)).collect()
}

fn sheet(name: &str, rows: Vec<Vec<Cell>>) -> Sheet {
    Sheet { name: String::from(name), content: SheetContent::Rows(rows) }
}

fn sample_book(greeting: &str) -> Workbook {
    Workbook {
        sheets: vec![
            sheet("导出语言管理", vec![row(&["en"])]),
            sheet("导出sheet管理", vec![row(&["Common", "root"]), row(&["Menu", ""])]),
            sheet("Common", vec![row(&["key", "en"]), row(&["greeting", greeting])]),
            sheet("Menu", vec![row(&["key", "en"]), row(&["file", "File"])]),
        ],
    }
}

/// A stand-in for the disk and the observer of a run.
struct World {
    book: Option<Workbook>,
    input_exists: bool,
    open_error: Option<String>,
    fail_delivery_of: Option<String>,
    fail_create: bool,
    fail_write: bool,
    fail_archive: bool,
    fail_remove: bool,
    events: Vec<(String, LogType)>,
    folders: Vec<String>,
    files: Vec<(String, String, String)>,
    archives: Vec<(String, Vec<(String, String)>)>,
    log: Vec<String>,
}

impl World {
    fn new(book: Workbook) -> World {
        World {
            book: Some(book),
            input_exists: true,
            open_error: None,
            fail_delivery_of: None,
            fail_create: false,
            fail_write: false,
            fail_archive: false,
            fail_remove: false,
            events: Vec::new(),
            folders: Vec::new(),
            files: Vec::new(),
            archives: Vec::new(),
            log: Vec::new(),
        }
    }

    fn perform(&mut self, action: Action) -> Report {
        match action {
            Action::Emit(event) => {
                if self.fail_delivery_of.as_deref() == Some(event.message.as_str()) {
                    return Report::Failed(String::from("channel closed"));
                }
                self.log.push(String::from("emit"));
                self.events.push((event.message, event.kind));
                Report::Done(String::new())
            }
            Action::CheckInput => {
                self.log.push(String::from("check"));
                if self.input_exists {
                    Report::Done(String::new())
                } else {
                    Report::Failed(String::new())
                }
            }
            Action::OpenWorkbook => {
                self.log.push(String::from("open"));
                match self.open_error.take() {
                    Some(e) => Report::Failed(e),
                    None => Report::Opened(self.book.take().unwrap()),
                }
            }
            Action::CreateFolder { folder } => {
                self.log.push(String::from("create"));
                if self.fail_create {
                    return Report::Failed(String::from("read-only"));
                }
                let shown = format!("/data/{}", folder);
                self.folders.push(folder);
                Report::Done(shown)
            }
            Action::WriteFile { folder, name, content } => {
                self.log.push(String::from("write"));
                if self.fail_write {
                    return Report::Failed(String::from("disk full"));
                }
                assert!(self.folders.contains(&folder));
                let shown = format!("/data/{}/{}", folder, name);
                self.files.push((folder, name, content));
                Report::Done(shown)
            }
            Action::Archive { folder } => {
                self.log.push(String::from("archive"));
                if self.fail_archive {
                    return Report::Failed(String::from("创建 zip 文件失败: denied"));
                }
                let entries = self
                    .files
                    .iter()
                    .filter(|(f, _, _)| *f == folder)
                    .map(|(f, n, c)| (format!("{}/{}", f, n), c.clone()))
                    .collect();
                self.archives.push((format!("{}.zip", folder), entries));
                Report::Archived {
                    shown: format!("/data/{}.zip", folder),
                    quoted: format!("\"/data/{}.zip\"", folder),
                }
            }
            Action::RemoveFolder { folder } => {
                self.log.push(String::from("remove"));
                if self.fail_remove {
                    return Report::Failed(String::from("busy"));
                }
                self.folders.retain(|f| *f != folder);
                self.files.retain(|(f, _, _)| *f != folder);
                Report::Done(String::new())
            }
            Action::DiscardFolder { folder } => {
                self.log.push(String::from("discard"));
                self.folders.retain(|f| *f != folder);
                self.files.retain(|(f, _, _)| *f != folder);
                Report::Done(String::new())
            }
        }
    }

    fn run(&mut self) -> Result<String, ExportError> {
        let (mut run, mut action) =
            ExportRun::begin(String::from("/data/strings.xlsx"), String::from("strings"));
        loop {
            let report = self.perform(action);
            assert!(report.is_wf());
            match run.react(report, "20240102_030405") {
                Turn::Perform(next, todo) => {
                    run = next;
                    action = todo;
                }
                Turn::Finished(outcome) => return outcome,
            }
        }
    }

    fn messages(&self) -> Vec<&str> {
        self.events.iter().map(|(m, _)| m.as_str()).collect()
    }
}

const EN_JSON: &str =
    "{\n  \"greeting\": \"Hello {name}\",\n  \"Menu\": {\n    \"file\": \"File\"\n  }\n}";

#[test]
fn export_writes_one_file_and_archives_it() {
    let mut world = World::new(sample_book("Hello {name}"));
    let outcome = world.run();
    assert_eq!(
        outcome.unwrap(),
        "完成导出 1 个语言文件并已压缩为 \"/data/strings_20240102_030405.zip\""
    );
    assert_eq!(
        world.archives,
        vec![(
            String::from("strings_20240102_030405.zip"),
            vec![(String::from("strings_20240102_030405/en.json"), String::from(EN_JSON))]
        )]
    );
    assert_eq!(
        json::parse(&world.archives[0].1[0].1).unwrap(),
        json::parse(r#"{"greeting":"Hello {name}","Menu":{"file":"File"}}"#).unwrap()
    );
    assert!(world.folders.is_empty());
    assert!(world.files.is_empty());
}

#[test]
fn export_reports_each_milestone_in_order() {
    let mut world = World::new(sample_book("Hello {name}"));
    world.run().unwrap();
    assert_eq!(
        world.events,
        vec![
            (String::from("开始处理文件: /data/strings.xlsx"), LogType::Info),
            (String::from("正在打开 Excel 文件..."), LogType::Info),
            (String::from("Excel 文件已成功打开"), LogType::Success),
            (String::from("读取到 1 个语言, 2 个工作表"), LogType::Info),
            (
                String::from("导出文件夹创建完成: /data/strings_20240102_030405"),
                LogType::Success
            ),
            (String::from("正在处理语言: en"), LogType::Info),
            (
                String::from("✅ 已导出语言文件: /data/strings_20240102_030405/en.json"),
                LogType::Success
            ),
            (String::from("正在压缩导出文件夹..."), LogType::Info),
            (
                String::from("✅ 已压缩文件夹为: /data/strings_20240102_030405.zip"),
                LogType::Success
            ),
        ]
    );
    assert_eq!(
        world.log,
        vec![
            "emit", "check", "emit", "open", "emit", "emit", "create", "emit", "emit", "write",
            "emit", "emit", "archive", "emit", "remove"
        ]
    );
}

#[test]
fn unbalanced_value_aborts_and_leaves_nothing() {
    let mut world = World::new(sample_book("Hello {name"));
    let e = world.run().unwrap_err();
    match &e {
        ExportError::PlaceholderError { sheet, row, key, value } => {
            assert_eq!(sheet, "Common");
            assert_eq!(*row, 2);
            assert_eq!(key, "greeting");
            assert_eq!(value, "Hello {name");
        }
        other => panic!("unexpected failure {:?}", other),
    }
    assert_eq!(
        e.message(),
        "占位符校验失败 Sheet: 'Common' 行: 2 Key: 'greeting' 值: 'Hello {name' 错误: 占位符不完整: Hello {name"
    );
    assert!(world.folders.is_empty());
    assert!(world.files.is_empty());
    assert!(world.archives.is_empty());
    assert_eq!(world.log.last().map(|s| s.as_str()), Some("discard"));
    assert!(!world.log.iter().any(|s| s == "archive"));
}

#[test]
fn failure_in_the_second_language_discards_the_first_file() {
    let book = Workbook {
        sheets: vec![
            sheet("导出语言管理", vec![row(&["en"]), row(&["fr"]), row(&["de"])]),
            sheet("导出sheet管理", vec![row(&["Common", "root"])]),
            sheet(
                "Common",
                vec![row(&["key", "en", "fr", "de"]), row(&["a", "A", "{", "D"])],
            ),
        ],
    };
    let mut world = World::new(book);
    let e = world.run().unwrap_err();
    assert!(matches!(e, ExportError::PlaceholderError { .. }));
    assert_eq!(
        world.log,
        vec![
            "emit", "check", "emit", "open", "emit", "emit", "create", "emit", "emit", "write",
            "emit", "emit", "discard"
        ]
    );
    assert!(world.folders.is_empty());
    assert!(world.files.is_empty());
    assert!(world.archives.is_empty());
    assert_eq!(world.messages().last(), Some(&"正在处理语言: fr"));
}

#[test]
fn missing_language_registry_fails_before_any_output() {
    let book = Workbook {
        sheets: vec![sheet("导出sheet管理", vec![row(&["Common", "root"])])],
    };
    let mut world = World::new(book);
    let e = world.run().unwrap_err();
    assert!(matches!(e, ExportError::MissingControlSheet { control: ControlSheet::Languages }));
    assert_eq!(e.message(), "读取语言配置失败: 未找到工作表: 导出语言管理");
    assert_eq!(world.log, vec!["emit", "check", "emit", "open", "emit"]);
    assert!(world.folders.is_empty());
}

#[test]
fn missing_sheet_registry_fails_before_any_output() {
    let book = Workbook { sheets: vec![sheet("导出语言管理", vec![row(&["en"])])] };
    let mut world = World::new(book);
    let e = world.run().unwrap_err();
    assert!(matches!(e, ExportError::MissingControlSheet { control: ControlSheet::Sheets }));
    assert_eq!(e.message(), "未找到工作表: 导出sheet管理");
    assert_eq!(world.log, vec!["emit", "check", "emit", "open", "emit"]);
    assert!(world.folders.is_empty());
}

#[test]
fn missing_input_file_is_announced_and_fails() {
    let mut world = World::new(sample_book("x"));
    world.input_exists = false;
    let e = world.run().unwrap_err();
    assert!(matches!(e, ExportError::FileNotFound { .. }));
    assert_eq!(e.message(), "文件不存在: /data/strings.xlsx");
    assert_eq!(
        world.events,
        vec![
            (String::from("开始处理文件: /data/strings.xlsx"), LogType::Info),
            (String::from("文件不存在: /data/strings.xlsx"), LogType::Error),
        ]
    );
    assert_eq!(world.log, vec!["emit", "check", "emit"]);
}

#[test]
fn workbook_that_cannot_be_opened_fails() {
    let mut world = World::new(sample_book("x"));
    world.open_error = Some(String::from("not a zip"));
    let e = world.run().unwrap_err();
    assert!(matches!(e, ExportError::OpenFailure { .. }));
    assert_eq!(e.message(), "打开文件失败: not a zip");
    assert_eq!(world.log, vec!["emit", "check", "emit", "open"]);
}

#[test]
fn undelivered_event_fails_the_run() {
    let mut world = World::new(sample_book("Hello"));
    world.fail_delivery_of = Some(String::from("正在处理语言: en"));
    let e = world.run().unwrap_err();
    assert!(matches!(e, ExportError::EventDeliveryFailure { .. }));
    assert_eq!(e.message(), "发送进度事件失败: channel closed");
    assert_eq!(world.folders, vec![String::from("strings_20240102_030405")]);
    assert!(world.files.is_empty());
}

#[test]
fn undelivered_first_event_fails_the_run_at_once() {
    let mut world = World::new(sample_book("Hello"));
    world.fail_delivery_of = Some(String::from("开始处理文件: /data/strings.xlsx"));
    let e = world.run().unwrap_err();
    assert!(matches!(e, ExportError::EventDeliveryFailure { .. }));
    assert!(world.log.is_empty());
}

#[test]
fn folder_that_cannot_be_created_fails() {
    let mut world = World::new(sample_book("Hello"));
    world.fail_create = true;
    let e = world.run().unwrap_err();
    assert!(matches!(e, ExportError::IoFailure { .. }));
    assert_eq!(e.message(), "创建目录失败: read-only");
}

#[test]
fn file_that_cannot_be_written_fails() {
    let mut world = World::new(sample_book("Hello"));
    world.fail_write = true;
    let e = world.run().unwrap_err();
    assert!(matches!(e, ExportError::IoFailure { .. }));
    assert_eq!(e.message(), "disk full");
}

#[test]
fn archive_that_cannot_be_written_fails() {
    let mut world = World::new(sample_book("Hello"));
    world.fail_archive = true;
    let e = world.run().unwrap_err();
    assert_eq!(e.message(), "创建 zip 文件失败: denied");
    assert_eq!(world.folders.len(), 1);
}

#[test]
fn folder_that_cannot_be_removed_is_a_warning() {
    let mut world = World::new(sample_book("Hello"));
    world.fail_remove = true;
    let outcome = world.run();
    assert!(outcome.is_ok());
    assert_eq!(
        world.events.last(),
        Some(&(String::from("⚠️ 删除文件夹失败: busy"), LogType::Warning))
    );
    assert_eq!(world.archives.len(), 1);
    assert_eq!(world.folders.len(), 1);
}

#[test]
fn warnings_are_delivered_between_language_and_file() {
    let book = Workbook {
        sheets: vec![
            sheet("导出语言管理", vec![row(&["en"])]),
            sheet("导出sheet管理", vec![row(&["Gone"]), row(&["Common", "root"])]),
            sheet("Common", vec![row(&["key", "en"]), row(&["a", ""])]),
        ],
    };
    let mut world = World::new(book);
    world.run().unwrap();
    let messages = world.messages();
    assert_eq!(messages[5], "正在处理语言: en");
    assert_eq!(messages[6], "⚠️ 找不到工作表: Gone");
    assert_eq!(messages[7], "空值警告 Sheet: 'Common' 行: 2 列: 'en' Key: 'a'");
    assert_eq!(messages[8], "✅ 已导出语言文件: /data/strings_20240102_030405/en.json");
    assert_eq!(world.archives[0].1[0].1, "{\n  \"a\": \"\"\n}");
}

#[test]
fn workbook_without_languages_archives_an_empty_folder() {
    let book = Workbook {
        sheets: vec![
            sheet("导出语言管理", vec![]),
            sheet("导出sheet管理", vec![row(&["Common", "root"])]),
        ],
    };
    let mut world = World::new(book);
    let outcome = world.run().unwrap();
    assert_eq!(
        outcome,
        "完成导出 0 个语言文件并已压缩为 \"/data/strings_20240102_030405.zip\""
    );
    assert_eq!(world.archives.len(), 1);
    assert!(world.archives[0].1.is_empty());
    assert_eq!(world.events[3].0, "读取到 0 个语言, 1 个工作表");
}

#[test]
fn one_file_per_language_in_registry_order() {
    let book = Workbook {
        sheets: vec![
            sheet("导出语言管理", vec![row(&["en"]), row(&["zh"])]),
            sheet("导出sheet管理", vec![row(&["Common", "root"])]),
            sheet("Common", vec![row(&["key", "en", "zh"]), row(&["hi", "Hi", "你好"])]),
        ],
    };
    let mut world = World::new(book);
    let outcome = world.run().unwrap();
    assert!(outcome.starts_with("完成导出 2 个语言文件并已压缩为 "));
    assert_eq!(
        world.archives[0].1,
        vec![
            (
                String::from("strings_20240102_030405/en.json"),
                String::from("{\n  \"hi\": \"Hi\"\n}")
            ),
            (
                String::from("strings_20240102_030405/zh.json"),
                String::from("{\n  \"hi\": \"你好\"\n}")
            ),
        ]
    );
}

#[test]
fn plan_of_a_good_workbook_ends_with_the_file_count() {
    let (actions, ending) = make_plan(&sample_book("Hello {name}"), "strings", "T");
    assert!(matches!(ending, Ok(1)));
    assert_eq!(actions.len(), 7);
    assert!(matches!(&actions[1], Action::CreateFolder { folder } if folder == "strings_T"));
    assert!(matches!(
        &actions[3],
        Action::WriteFile { folder, name, content }
            if folder == "strings_T" && name == "en.json" && content == EN_JSON
    ));
    assert!(matches!(&actions[5], Action::Archive { folder } if folder == "strings_T"));
    assert!(matches!(&actions[6], Action::RemoveFolder { folder } if folder == "strings_T"));
}

#[test]
fn plan_of_a_failing_workbook_ends_with_a_discard() {
    let (actions, ending) = make_plan(&sample_book("Hello {name"), "strings", "T");
    assert!(matches!(ending, Err(ExportError::PlaceholderError { .. })));
    assert!(matches!(actions.last(), Some(Action::DiscardFolder { folder }) if folder == "strings_T"));
    assert!(!actions.iter().any(|a| matches!(a, Action::Archive { .. })));
}

#[test]
fn folder_and_file_names() {
    assert_eq!(export_folder_name("strings", "20240102_030405"), "strings_20240102_030405");
    assert_eq!(export_folder_name("", ""), "_");
    assert_eq!(language_file_name("zh-CN"), "zh-CN.json");
}

#[test]
fn advance_names_the_folder_by_the_clock() {
    let (run, first) = ExportRun::begin(String::from("in.xlsx"), String::from("in"));
    assert!(matches!(first, Action::Emit(_)));
    let mut world = World::new(sample_book("Hello"));
    let mut run = run;
    let mut action = first;
    let mut folder = None;
    let outcome = loop {
        if let Action::CreateFolder { folder: name } = &action {
            folder = Some(name.clone());
        }
        let report = world.perform(action);
        match run.advance(report) {
            Turn::Perform(next, todo) => {
                run = next;
                action = todo;
            }
            Turn::Finished(outcome) => break outcome,
        }
    };
    assert!(outcome.is_ok());
    let folder = folder.unwrap();
    let stamp = folder.strip_prefix("in_").unwrap();
    assert_eq!(stamp.len(), 15);
    assert!(stamp.chars().all(|c| c.is_ascii_digit() || c == '_'));
    assert_eq!(stamp.chars().nth(8), Some('_'));
}

#[test]
fn severities_have_lower_case_labels() {
    assert_eq!(LogType::Info.label(), "info");
    assert_eq!(LogType::Success.label(), "success");
    assert_eq!(LogType::Warning.label(), "warning");
    assert_eq!(LogType::Error.label(), "error");
}

#[test]
fn report_without_a_workbook_counts_as_a_failed_open() {
    let (mut run, mut action) = ExportRun::begin(String::from("p"), String::from("s"));
    let outcome = loop {
        assert!(!matches!(action, Action::CreateFolder { .. }));
        match run.react(Report::Done(String::from("ignored")), "T") {
            Turn::Perform(next, todo) => {
                run = next;
                action = todo;
            }
            Turn::Finished(outcome) => break outcome,
        }
    };
    let e = outcome.unwrap_err();
    assert!(matches!(&e, ExportError::OpenFailure { detail } if detail.is_empty()));
    assert_eq!(e.message(), "打开文件失败: ");
}

#[test]
fn reports_show_and_quote_paths() {
    let done = Report::Done(String::from("/a/b"));
    assert_eq!(shown_text(&done), "/a/b");
    assert_eq!(quoted_text(&done), "/a/b");
    let archived = Report::Archived { shown: String::from("/a.zip"), quoted: String::from("\"/a.zip\"") };
    assert_eq!(shown_text(&archived), "/a.zip");
    assert_eq!(quoted_text(&archived), "\"/a.zip\"");
    let failed = Report::Failed(String::from("why"));
    assert_eq!(shown_text(&failed), "");
    assert_eq!(quoted_text(&failed), "");
}

#[test]
fn each_action_awaits_its_own_kind_of_report() {
    let folder = String::from("f");
    assert_eq!(kind_of(&Action::CheckInput), Awaiting::InputCheck);
    assert_eq!(kind_of(&Action::OpenWorkbook), Awaiting::Workbook);
    assert_eq!(kind_of(&Action::CreateFolder { folder: folder.clone() }), Awaiting::Folder);
    assert_eq!(kind_of(&Action::Archive { folder: folder.clone() }), Awaiting::Archive);
    assert_eq!(kind_of(&Action::RemoveFolder { folder: folder.clone() }), Awaiting::Removal);
    assert_eq!(kind_of(&Action::DiscardFolder { folder: folder.clone() }), Awaiting::Discard);
    let write = Action::WriteFile { folder, name: String::from("n"), content: String::from("c") };
    assert_eq!(kind_of(&write), Awaiting::File);
    let copy = write.duplicate();
    assert!(matches!(copy, Action::WriteFile { folder, name, content }
        if folder == "f" && name == "n" && content == "c"));
}

#[test]
fn workbook_with_a_date_outside_the_calendar_is_not_valid() {
    let book = Workbook {
        sheets: vec![sheet("a", vec![vec![Cell::DateTime { days: i64::MIN, seconds: 0 }]])],
    };
    assert!(!Report::Opened(book).is_wf());
    assert!(Report::Opened(sample_book("x")).is_wf());
    assert!(Report::Failed(String::new()).is_wf());
}
