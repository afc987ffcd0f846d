//! The lines the operator gets to read: notices on standard output and the
//! messages of the failures.

use crate::model::{Failure, NoticeView};
use crate::pipeline::Notice;
use crate::startup::StartupError;
use vstd::prelude::*;

verus! {

/// The line that `notice` is printed as.
pub open spec fn notice_text(notice: NoticeView) -> Seq<char> {
    match notice {
        NoticeView::Matched { path } => "Matched: "@ + path,
        NoticeView::Waiting { path } => "Waiting "@ + path + " to download."@,
        NoticeView::Moving { path, destination } => "Moving "@ + path + " to "@ + destination,
    }
}

/// The message that `failure` is reported with.
pub open spec fn failure_message(failure: Failure) -> Seq<char> {
    match failure {
        Failure::NotificationChannel => "Failed to read directory events"@,
        Failure::DirectoryRead => "Failed to list watch directory"@,
        Failure::Move => "Failed to move file"@,
    }
}

impl Notice {
    /// The line to print for this notice. It names every path of the notice.
    pub fn text(&self) -> (line: String)
        ensures
            line@ == notice_text(self@),
    {
        match self {
            Notice::Matched { path } => {
                let mut line = "Matched: ".to_owned();
                line.append(path.as_str());
                line
            },
            Notice::Waiting { path } => {
                let mut line = "Waiting ".to_owned();
                line.append(path.as_str());
                line.append(" to download.");
                line
            },
            Notice::Moving { path, destination } => {
                let mut line = "Moving ".to_owned();
                line.append(path.as_str());
                line.append(" to ");
                line.append(destination.as_str());
                line
            },
        }
    }
}

impl Failure {
    /// The message to report this failure with.
    pub fn message(&self) -> (message: String)
        ensures
            message@ == failure_message(*self),
    {
        match self {
            Failure::NotificationChannel => "Failed to read directory events".to_owned(),
            Failure::DirectoryRead => "Failed to list watch directory".to_owned(),
            Failure::Move => "Failed to move file".to_owned(),
        }
    }
}

impl StartupError {
    /// The message of this error, as a sequence of characters.
    pub open spec fn message_text(self) -> Seq<char> {
        match self {
            StartupError::MissingWatchPath => "No source path specified"@,
            StartupError::MissingDestinationPath => "No destination path specified"@,
            StartupError::MissingPattern => "No file pattern specified"@,
            StartupError::InvalidPattern { error } => "Invalid regex expression: "@ + error.detail@,
            StartupError::DestinationMissing => "Destination path does not exist"@,
            StartupError::WatchPathMissing => "Watch path does not exist"@,
        }
    }

    /// The message to report this error with.
    pub fn message(&self) -> (message: String)
        ensures
            message@ == self.message_text(),
    {
        match self {
            StartupError::MissingWatchPath => "No source path specified".to_owned(),
            StartupError::MissingDestinationPath => "No destination path specified".to_owned(),
            StartupError::MissingPattern => "No file pattern specified".to_owned(),
            StartupError::InvalidPattern { error } => {
                let mut message = "Invalid regex expression: ".to_owned();
                message.append(error.detail.as_str());
                message
            },
            StartupError::DestinationMissing => "Destination path does not exist".to_owned(),
            StartupError::WatchPathMissing => "Watch path does not exist".to_owned(),
        }
    }
}

} // verus!
