//! The failures that a command of the store can end with.

use vstd::prelude::*;
use vstd::string::*;

verus! {

/// Why a command failed. Each failure carries the cause as the host worded it.
#[derive(Debug, PartialEq, Eq)]
pub enum StoreError {
    /// The platform could not name a data directory for the application.
    DirectoryUnavailable { cause: String },
    /// The data directory is known, but it could not be created.
    DirectoryCreateFailed { cause: String },
    /// The data directory is there, but the file could not be written.
    WriteFailed { cause: String },
}

/// A [`StoreError`] as contracts see it.
pub enum StoreErrorView {
    DirectoryUnavailable { cause: Seq<char> },
    DirectoryCreateFailed { cause: Seq<char> },
    WriteFailed { cause: Seq<char> },
}

impl View for StoreError {
    type V = StoreErrorView;

    open spec fn view(&self) -> StoreErrorView {
        match self {
            StoreError::DirectoryUnavailable { cause } => StoreErrorView::DirectoryUnavailable {
                cause: cause@,
            },
            StoreError::DirectoryCreateFailed { cause } => StoreErrorView::DirectoryCreateFailed {
                cause: cause@,
            },
            StoreError::WriteFailed { cause } => StoreErrorView::WriteFailed { cause: cause@ },
        }
    }
}

impl StoreErrorView {
    /// The cause that the host gave.
    pub open spec fn cause(self) -> Seq<char> {
        match self {
            StoreErrorView::DirectoryUnavailable { cause } => cause,
            StoreErrorView::DirectoryCreateFailed { cause } => cause,
            StoreErrorView::WriteFailed { cause } => cause,
        }
    }

    /// Whether the failure concerns the data directory rather than a file in it.
    pub open spec fn is_directory_error(self) -> bool {
        self is DirectoryUnavailable || self is DirectoryCreateFailed
    }

    /// What the message starts with, by the kind of failure.
    pub open spec fn prefix(self) -> Seq<char> {
        match self {
            StoreErrorView::DirectoryUnavailable { .. } => "无法获取应用数据目录: "@,
            StoreErrorView::DirectoryCreateFailed { .. } => "创建数据目录失败: "@,
            StoreErrorView::WriteFailed { .. } => "保存文件失败: "@,
        }
    }

    /// The text shown to the front-end: the prefix of the kind, then the cause.
    pub open spec fn message(self) -> Seq<char> {
        self.prefix() + self.cause()
    }
}

impl StoreError {
    /// The cause that the host gave.
    pub fn cause(&self) -> (cause: &str)
        ensures
            cause@ == self@.cause(),
    {
        match self {
            StoreError::DirectoryUnavailable { cause } => cause.as_str(),
            StoreError::DirectoryCreateFailed { cause } => cause.as_str(),
            StoreError::WriteFailed { cause } => cause.as_str(),
        }
    }

    /// Whether the failure concerns the data directory rather than a file in it.
    pub fn is_directory_error(&self) -> (yes: bool)
        ensures
            yes == self@.is_directory_error(),
    {
        match self {
            StoreError::DirectoryUnavailable { .. } => true,
            StoreError::DirectoryCreateFailed { .. } => true,
            StoreError::WriteFailed { .. } => false,
        }
    }

    /// The text shown to the front-end, which has no other way to tell the
    /// failures apart: the prefix of the kind, then the cause.
    pub fn message(&self) -> (text: String)
        ensures
            text@ == self@.message(),
    {
        let prefix = match self {
            StoreError::DirectoryUnavailable { .. } => "无法获取应用数据目录: ",
            StoreError::DirectoryCreateFailed { .. } => "创建数据目录失败: ",
            StoreError::WriteFailed { .. } => "保存文件失败: ",
        };
        String::from_str(prefix).concat(self.cause())
    }
}

} // verus!
