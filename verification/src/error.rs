//! Why a command failed, and the sentence that tells the caller so.

use crate::document::Document;
use vstd::prelude::*;

verus! {

/// The step of a command at which the disk refused.
#[derive(Clone, Copy, Debug, PartialEq, Eq, Structural)]
pub enum IoStage {
    /// Creating the data directory.
    CreateDir,
    /// Writing the file of a document.
    Write(Document),
    /// Reading the file of a document.
    Read(Document),
}

/// A failed command. Each variant keeps the host's own description of
/// what went wrong.
#[derive(Debug)]
pub enum StoreError {
    /// The host could not tell where the data directory is.
    DirectoryResolution { reason: String },
    /// Creating the directory, writing or reading a file failed.
    Io { stage: IoStage, reason: String },
    /// The tasks could not be encoded as text.
    Serialization { reason: String },
}

/// A failed command with its texts as sequences of characters.
pub enum StoreErrorView {
    DirectoryResolution { reason: Seq<char> },
    Io { stage: IoStage, reason: Seq<char> },
    Serialization { reason: Seq<char> },
}

impl View for StoreError {
    type V = StoreErrorView;

    open spec fn view(&self) -> StoreErrorView {
        match self {
            StoreError::DirectoryResolution { reason } => StoreErrorView::DirectoryResolution {
                reason: reason@,
            },
            StoreError::Io { stage, reason } => StoreErrorView::Io {
                stage: *stage,
                reason: reason@,
            },
            StoreError::Serialization { reason } => StoreErrorView::Serialization {
                reason: reason@,
            },
        }
    }
}

impl IoStage {
    /// How the message of a disk failure at this stage begins.
    pub open spec fn prefix_spec(self) -> Seq<char> {
        match self {
            IoStage::CreateDir => "Failed to create app directory: "@,
            IoStage::Write(doc) => "Failed to save "@ + doc.label_spec() + ": "@,
            IoStage::Read(doc) => "Failed to load "@ + doc.label_spec() + ": "@,
        }
    }

    pub fn prefix(&self) -> (text: String)
        ensures
            text@ == self.prefix_spec(),
    {
        match self {
            IoStage::CreateDir => String::from_str("Failed to create app directory: "),
            IoStage::Write(doc) => String::from_str("Failed to save ").concat(doc.label()).concat(
                ": ",
            ),
            IoStage::Read(doc) => String::from_str("Failed to load ").concat(doc.label()).concat(
                ": ",
            ),
        }
    }
}

impl StoreErrorView {
    /// How the message begins: what was being attempted.
    pub open spec fn prefix(self) -> Seq<char> {
        match self {
            StoreErrorView::DirectoryResolution { .. } => "Failed to get app data directory: "@,
            StoreErrorView::Io { stage, .. } => stage.prefix_spec(),
            StoreErrorView::Serialization { .. } => "Failed to serialize tasks: "@,
        }
    }

    /// The host's description of the failure.
    pub open spec fn reason(self) -> Seq<char> {
        match self {
            StoreErrorView::DirectoryResolution { reason } => reason,
            StoreErrorView::Io { reason, .. } => reason,
            StoreErrorView::Serialization { reason } => reason,
        }
    }

    /// The sentence handed to the caller: what was attempted, then the
    /// host's description.
    pub open spec fn message(self) -> Seq<char> {
        self.prefix() + self.reason()
    }
}

impl StoreError {
    /// The sentence that reports the failure to the caller.
    pub fn message(&self) -> (text: String)
        ensures
            text@ == self@.message(),
    {
        match self {
            StoreError::DirectoryResolution { reason } => String::from_str(
                "Failed to get app data directory: ",
            ).concat(reason.as_str()),
            StoreError::Io { stage, reason } => stage.prefix().concat(reason.as_str()),
            StoreError::Serialization { reason } => String::from_str(
                "Failed to serialize tasks: ",
            ).concat(reason.as_str()),
        }
    }
}

} // verus!
