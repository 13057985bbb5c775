//! Progress events: what the run tells its observer at each milestone.

use vstd::prelude::*;
use vstd::string::*;
use crate::text::{count_string, decimal};

verus! {

/// The severity of a progress event.
#[derive(Clone, Copy, Debug, PartialEq, Eq, Structural)]
pub enum LogType {
    Info,
    Success,
    Warning,
    Error,
}

/// The lower-case name under which a severity is delivered.
pub open spec fn log_type_label(kind: LogType) -> Seq<char> {
    match kind {
        LogType::Info => "info"@,
        LogType::Success => "success"@,
        LogType::Warning => "warning"@,
        LogType::Error => "error"@,
    }
}

impl LogType {
    /// The lower-case name under which this severity is delivered.
    pub fn label(&self) -> (name: &'static str)
        ensures
            name@ == log_type_label(*self),
    {
        match self {
            LogType::Info => "info",
            LogType::Success => "success",
            LogType::Warning => "warning",
            LogType::Error => "error",
        }
    }
}

/// One notification to the observer of a run.
#[derive(Debug)]
pub struct ProgressEvent {
    pub message: String,
    pub kind: LogType,
}

/// The mathematical content of a [`ProgressEvent`].
pub struct EventView {
    pub message: Seq<char>,
    pub kind: LogType,
}

impl View for ProgressEvent {
    type V = EventView;

    open spec fn view(&self) -> EventView {
        EventView { message: self.message@, kind: self.kind }
    }
}

impl DeepView for ProgressEvent {
    type V = EventView;

    open spec fn deep_view(&self) -> EventView {
        self@
    }
}

/// An event of severity `Info`.
pub open spec fn info(message: Seq<char>) -> EventView {
    EventView { message, kind: LogType::Info }
}

/// An event of severity `Success`.
pub open spec fn success(message: Seq<char>) -> EventView {
    EventView { message, kind: LogType::Success }
}

/// An event of severity `Warning`.
pub open spec fn warning(message: Seq<char>) -> EventView {
    EventView { message, kind: LogType::Warning }
}

/// An event of severity `Error`.
pub open spec fn failure(message: Seq<char>) -> EventView {
    EventView { message, kind: LogType::Error }
}

/// Announces the start of a run on the workbook at `path`.
pub open spec fn started(path: Seq<char>) -> EventView {
    info("开始处理文件: "@ + path)
}

/// Announces that the workbook is being opened.
pub open spec fn opening() -> EventView {
    info("正在打开 Excel 文件..."@)
}

/// Announces that the workbook was opened.
pub open spec fn opened() -> EventView {
    success("Excel 文件已成功打开"@)
}

/// Announces how many languages and sheets the control sheets list.
pub open spec fn counted(languages: int, sheets: int) -> EventView {
    info("读取到 "@ + decimal(languages) + " 个语言, "@ + decimal(sheets) + " 个工作表"@)
}

/// Announces that the output folder exists; `shown` is its path.
pub open spec fn folder_created(shown: Seq<char>) -> EventView {
    success("导出文件夹创建完成: "@ + shown)
}

/// Announces the language that is scanned next.
pub open spec fn processing(code: Seq<char>) -> EventView {
    info("正在处理语言: "@ + code)
}

/// Warns that a content sheet exists but could not be read.
pub open spec fn sheet_unreadable(sheet: Seq<char>, detail: Seq<char>) -> EventView {
    warning("⚠️ 读取工作表 "@ + sheet + " 失败: "@ + detail)
}

/// Warns that the workbook has no sheet of this name.
pub open spec fn sheet_missing(sheet: Seq<char>) -> EventView {
    warning("⚠️ 找不到工作表: "@ + sheet)
}

/// Warns that a key has no value in a language; `row` counts from one.
pub open spec fn empty_value(sheet: Seq<char>, row: int, code: Seq<char>, key: Seq<char>) -> EventView {
    warning(
        "空值警告 Sheet: '"@ + sheet + "' 行: "@ + decimal(row) + " 列: '"@ + code + "' Key: '"@ + key
            + "'"@,
    )
}

/// Announces that a language file was written; `shown` is its path.
pub open spec fn file_exported(shown: Seq<char>) -> EventView {
    success("✅ 已导出语言文件: "@ + shown)
}

/// Announces that the output folder is being compressed.
pub open spec fn compressing() -> EventView {
    info("正在压缩导出文件夹..."@)
}

/// Announces that the archive was written; `shown` is its path.
pub open spec fn compressed(shown: Seq<char>) -> EventView {
    success("✅ 已压缩文件夹为: "@ + shown)
}

/// Warns that the uncompressed output folder could not be removed.
pub open spec fn removal_failed(detail: Seq<char>) -> EventView {
    warning("⚠️ 删除文件夹失败: "@ + detail)
}

/// The summary that a successful run returns; `quoted` is the archive's
/// path in quotes.
pub open spec fn summary(files: int, quoted: Seq<char>) -> Seq<char> {
    "完成导出 "@ + decimal(files) + " 个语言文件并已压缩为 "@ + quoted
}

impl ProgressEvent {
    fn make(message: String, kind: LogType) -> (e: ProgressEvent)
        ensures
            e@ == (EventView { message: message@, kind }),
    {
        ProgressEvent { message, kind }
    }

    /// A copy of this event.
    pub fn duplicate(&self) -> (e: ProgressEvent)
        ensures
            e@ == self@,
    {
        ProgressEvent { message: self.message.clone(), kind: self.kind }
    }

    /// The event that announces the start of a run.
    pub fn started(path: &str) -> (e: ProgressEvent)
        ensures
            e@ == started(path@),
    {
        Self::make(String::from_str("开始处理文件: ").concat(path), LogType::Info)
    }

    /// The event that reports a missing input file.
    pub fn input_missing(message: String) -> (e: ProgressEvent)
        ensures
            e@ == failure(message@),
    {
        Self::make(message, LogType::Error)
    }

    /// The event that announces the opening of the workbook.
    pub fn opening() -> (e: ProgressEvent)
        ensures
            e@ == opening(),
    {
        Self::make(String::from_str("正在打开 Excel 文件..."), LogType::Info)
    }

    /// The event that announces that the workbook was opened.
    pub fn opened() -> (e: ProgressEvent)
        ensures
            e@ == opened(),
    {
        Self::make(String::from_str("Excel 文件已成功打开"), LogType::Success)
    }

    /// The event that announces the numbers of languages and sheets.
    pub fn counted(languages: usize, sheets: usize) -> (e: ProgressEvent)
        ensures
            e@ == counted(languages as int, sheets as int),
    {
        let mut message = String::from_str("读取到 ");
        message.append(count_string(languages).as_str());
        message.append(" 个语言, ");
        message.append(count_string(sheets).as_str());
        message.append(" 个工作表");
        Self::make(message, LogType::Info)
    }

    /// The event that announces the output folder.
    pub fn folder_created(shown: &str) -> (e: ProgressEvent)
        ensures
            e@ == folder_created(shown@),
    {
        Self::make(String::from_str("导出文件夹创建完成: ").concat(shown), LogType::Success)
    }

    /// The event that announces the next language.
    pub fn processing(code: &str) -> (e: ProgressEvent)
        ensures
            e@ == processing(code@),
    {
        Self::make(String::from_str("正在处理语言: ").concat(code), LogType::Info)
    }

    /// The warning for a content sheet that could not be read.
    pub fn sheet_unreadable(sheet: &str, detail: &str) -> (e: ProgressEvent)
        ensures
            e@ == sheet_unreadable(sheet@, detail@),
    {
        let mut message = String::from_str("⚠️ 读取工作表 ");
        message.append(sheet);
        message.append(" 失败: ");
        message.append(detail);
        Self::make(message, LogType::Warning)
    }

    /// The warning for a content sheet that the workbook lacks.
    pub fn sheet_missing(sheet: &str) -> (e: ProgressEvent)
        ensures
            e@ == sheet_missing(sheet@),
    {
        Self::make(String::from_str("⚠️ 找不到工作表: ").concat(sheet), LogType::Warning)
    }

    /// The warning for a key without a value.
    pub fn empty_value(sheet: &str, row: usize, code: &str, key: &str) -> (e: ProgressEvent)
        ensures
            e@ == empty_value(sheet@, row as int, code@, key@),
    {
        let mut message = String::from_str("空值警告 Sheet: '");
        message.append(sheet);
        message.append("' 行: ");
        message.append(count_string(row).as_str());
        message.append(" 列: '");
        message.append(code);
        message.append("' Key: '");
        message.append(key);
        message.append("'");
        Self::make(message, LogType::Warning)
    }

    /// The event that announces a written language file.
    pub fn file_exported(shown: &str) -> (e: ProgressEvent)
        ensures
            e@ == file_exported(shown@),
    {
        Self::make(String::from_str("✅ 已导出语言文件: ").concat(shown), LogType::Success)
    }

    /// The event that announces the compression.
    pub fn compressing() -> (e: ProgressEvent)
        ensures
            e@ == compressing(),
    {
        Self::make(String::from_str("正在压缩导出文件夹..."), LogType::Info)
    }

    /// The event that announces the archive.
    pub fn compressed(shown: &str) -> (e: ProgressEvent)
        ensures
            e@ == compressed(shown@),
    {
        Self::make(String::from_str("✅ 已压缩文件夹为: ").concat(shown), LogType::Success)
    }

    /// The warning for an output folder that could not be removed.
    pub fn removal_failed(detail: &str) -> (e: ProgressEvent)
        ensures
            e@ == removal_failed(detail@),
    {
        Self::make(String::from_str("⚠️ 删除文件夹失败: ").concat(detail), LogType::Warning)
    }
}

/// Writes the summary of a successful run.
pub fn summary_string(files: usize, quoted: &str) -> (text: String)
    ensures
        text@ == summary(files as int, quoted@),
{
    let mut text = String::from_str("完成导出 ");
    text.append(count_string(files).as_str());
    text.append(" 个语言文件并已压缩为 ");
    text.append(quoted);
    text
}

} // verus!
