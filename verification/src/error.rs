//! The ways in which an export run fails.

use vstd::prelude::*;
use vstd::string::*;
use crate::placeholder::incomplete_message;
use crate::text::{count_string, decimal};

verus! {

/// One of the two control sheets of a workbook.
#[derive(Clone, Copy, Debug, PartialEq, Eq, Structural)]
pub enum ControlSheet {
    /// The sheet that lists the language codes.
    Languages,
    /// The sheet that lists the content sheets and their modes.
    Sheets,
}

/// The fixed name of a control sheet.
pub open spec fn control_sheet_name(sheet: ControlSheet) -> Seq<char> {
    match sheet {
        ControlSheet::Languages => "导出语言管理"@,
        ControlSheet::Sheets => "导出sheet管理"@,
    }
}

impl ControlSheet {
    /// The fixed name of this control sheet.
    pub fn name(&self) -> (name: &'static str)
        ensures
            name@ == control_sheet_name(*self),
    {
        match self {
            ControlSheet::Languages => "导出语言管理",
            ControlSheet::Sheets => "导出sheet管理",
        }
    }
}

/// Why a run failed.
#[derive(Debug)]
pub enum ExportError {
    /// The input path names no file.
    FileNotFound { path: String },
    /// The workbook could not be parsed.
    OpenFailure { detail: String },
    /// The workbook lacks a control sheet.
    MissingControlSheet { control: ControlSheet },
    /// A control sheet is present but could not be read.
    SheetReadFailure { control: ControlSheet, detail: String },
    /// A value has unbalanced braces; `row` counts from one.
    PlaceholderError { sheet: String, row: usize, key: String, value: String },
    /// A folder or file could not be created, written, archived or removed.
    IoFailure { detail: String },
    /// A progress event could not be delivered.
    EventDeliveryFailure { detail: String },
}

/// The mathematical content of an [`ExportError`].
pub enum ErrorView {
    FileNotFound { path: Seq<char> },
    OpenFailure { detail: Seq<char> },
    MissingControlSheet { control: ControlSheet },
    SheetReadFailure { control: ControlSheet, detail: Seq<char> },
    PlaceholderError { sheet: Seq<char>, row: int, key: Seq<char>, value: Seq<char> },
    IoFailure { detail: Seq<char> },
    EventDeliveryFailure { detail: Seq<char> },
}

impl View for ExportError {
    type V = ErrorView;

    open spec fn view(&self) -> ErrorView {
        match *self {
            ExportError::FileNotFound { path } => ErrorView::FileNotFound { path: path@ },
            ExportError::OpenFailure { detail } => ErrorView::OpenFailure { detail: detail@ },
            ExportError::MissingControlSheet { control } => ErrorView::MissingControlSheet { control },
            ExportError::SheetReadFailure { control, detail } => ErrorView::SheetReadFailure {
                control,
                detail: detail@,
            },
            ExportError::PlaceholderError { sheet, row, key, value } => ErrorView::PlaceholderError {
                sheet: sheet@,
                row: row as int,
                key: key@,
                value: value@,
            },
            ExportError::IoFailure { detail } => ErrorView::IoFailure { detail: detail@ },
            ExportError::EventDeliveryFailure { detail } => ErrorView::EventDeliveryFailure {
                detail: detail@,
            },
        }
    }
}

impl DeepView for ExportError {
    type V = ErrorView;

    open spec fn deep_view(&self) -> ErrorView {
        self@
    }
}

/// What is said of a control sheet that the workbook lacks.
pub open spec fn sheet_not_found(sheet: ControlSheet) -> Seq<char> {
    "未找到工作表: "@ + control_sheet_name(sheet)
}

/// What a failure to read the registry says: failures of the language
/// registry carry a prefix, those of the sheet registry stand alone.
pub open spec fn registry_failure(sheet: ControlSheet, inner: Seq<char>) -> Seq<char> {
    match sheet {
        ControlSheet::Languages => "读取语言配置失败: "@ + inner,
        ControlSheet::Sheets => inner,
    }
}

/// What a placeholder failure says; `row` counts from one.
pub open spec fn placeholder_failure(
    sheet: Seq<char>,
    row: int,
    key: Seq<char>,
    value: Seq<char>,
) -> Seq<char> {
    "占位符校验失败 Sheet: '"@ + sheet + "' 行: "@ + decimal(row) + " Key: '"@ + key + "' 值: '"@
        + value + "' 错误: "@ + incomplete_message(value)
}

/// The message that describes a failure to the user.
pub open spec fn error_message(e: ErrorView) -> Seq<char> {
    match e {
        ErrorView::FileNotFound { path } => "文件不存在: "@ + path,
        ErrorView::OpenFailure { detail } => "打开文件失败: "@ + detail,
        ErrorView::MissingControlSheet { control } => registry_failure(
            control,
            sheet_not_found(control),
        ),
        ErrorView::SheetReadFailure { control, detail } => registry_failure(control, detail),
        ErrorView::PlaceholderError { sheet, row, key, value } => placeholder_failure(
            sheet,
            row,
            key,
            value,
        ),
        ErrorView::IoFailure { detail } => detail,
        ErrorView::EventDeliveryFailure { detail } => "发送进度事件失败: "@ + detail,
    }
}

fn registry_failure_string(sheet: ControlSheet, inner: String) -> (text: String)
    ensures
        text@ == registry_failure(sheet, inner@),
{
    match sheet {
        ControlSheet::Languages => String::from_str("读取语言配置失败: ").concat(inner.as_str()),
        ControlSheet::Sheets => inner,
    }
}

impl ExportError {
    /// The message that describes this failure to the user.
    pub fn message(&self) -> (text: String)
        ensures
            text@ == error_message(self@),
    {
        match self {
            ExportError::FileNotFound { path } => String::from_str("文件不存在: ").concat(
                path.as_str(),
            ),
            ExportError::OpenFailure { detail } => String::from_str("打开文件失败: ").concat(
                detail.as_str(),
            ),
            ExportError::MissingControlSheet { control } => {
                let inner = String::from_str("未找到工作表: ").concat(control.name());
                registry_failure_string(*control, inner)
            },
            ExportError::SheetReadFailure { control, detail } => registry_failure_string(
                *control,
                detail.clone(),
            ),
            ExportError::PlaceholderError { sheet, row, key, value } => {
                let mut text = String::from_str("占位符校验失败 Sheet: '");
                text.append(sheet.as_str());
                text.append("' 行: ");
                text.append(count_string(*row).as_str());
                text.append(" Key: '");
                text.append(key.as_str());
                text.append("' 值: '");
                text.append(value.as_str());
                text.append("' 错误: ");
                let inner = String::from_str("占位符不完整: ").concat(value.as_str());
                text.append(inner.as_str());
                text
            },
            ExportError::IoFailure { detail } => detail.clone(),
            ExportError::EventDeliveryFailure { detail } => String::from_str(
                "发送进度事件失败: ",
            ).concat(detail.as_str()),
        }
    }
}

} // verus!
