//! One resolved link entry, and the taxonomy of link failures.

use vstd::prelude::*;

use crate::path::spec_join;
use crate::path::AbsPath;

verus! {

/// What went wrong, reduced to the four cases the linker distinguishes.
#[derive(Clone, Copy, Debug, PartialEq, Eq, Structural)]
pub enum ErrorKind {
    NotFound,
    PermissionDenied,
    AlreadyExists,
    Other,
}

/// Which filesystem operation failed.
#[derive(Clone, Copy, Debug, PartialEq, Eq, Structural)]
pub enum ErrorStage {
    RemoveFile,
    HardLink,
}

/// A classified link failure with its human-readable message.
#[derive(Debug)]
pub struct Error {
    pub kind: ErrorKind,
    pub stage: ErrorStage,
    pub message: String,
}

impl Clone for Error {
    fn clone(&self) -> (r: Self)
        ensures
            r == *self,
    {
        Error { kind: self.kind, stage: self.stage, message: self.message.clone() }
    }
}

/// The words `as_str` gives for each error kind.
pub open spec fn spec_kind_str(k: ErrorKind) -> Seq<char> {
    match k {
        ErrorKind::NotFound => "not found"@,
        ErrorKind::PermissionDenied => "permission denied"@,
        ErrorKind::AlreadyExists => "already exists"@,
        ErrorKind::Other => "unknown error"@,
    }
}

impl ErrorKind {
    /// The error kind in words.
    pub fn as_str(&self) -> (r: &'static str)
        ensures
            r@ == spec_kind_str(*self),
    {
        match self {
            ErrorKind::NotFound => "not found",
            ErrorKind::PermissionDenied => "permission denied",
            ErrorKind::AlreadyExists => "already exists",
            ErrorKind::Other => "unknown error",
        }
    }
}

/// The words `as_str` gives for each stage.
pub open spec fn spec_stage_str(s: ErrorStage) -> Seq<char> {
    match s {
        ErrorStage::RemoveFile => "remove destination file"@,
        ErrorStage::HardLink => "make a hard link"@,
    }
}

impl ErrorStage {
    /// The stage as the phrase reports print.
    pub fn as_str(&self) -> (r: &'static str)
        ensures
            r@ == spec_stage_str(*self),
    {
        match self {
            ErrorStage::RemoveFile => "remove destination file",
            ErrorStage::HardLink => "make a hard link",
        }
    }
}

/// One file resolved for this run: a run-unique id, the file name, and the
/// directories the link goes from and to.
#[derive(Debug)]
pub struct DotFile {
    pub id: u32,
    pub name: String,
    pub src: AbsPath,
    pub dst: AbsPath,
}

impl DotFile {
    /// The full destination file path: the destination directory joined
    /// with the file name.
    pub fn dst_file_path(&self) -> (r: AbsPath)
        ensures
            r@ == spec_join(self.dst@, self.name@),
    {
        self.dst.join(self.name.as_str())
    }

    /// The full source file path: the source directory joined with the
    /// file name.
    pub fn src_file_path(&self) -> (r: AbsPath)
        ensures
            r@ == spec_join(self.src@, self.name@),
    {
        self.src.join(self.name.as_str())
    }
}

} // verus!
