//! The hard-link operation as a state machine: which filesystem step to
//! take next, and how each observed outcome moves the attempt along. The
//! caller performs the steps; the machine decides, so the retry policy is
//! the same whether the steps touch a real filesystem or a simulated one.

use vstd::prelude::*;
use vstd::string::*;

use crate::dotfile::Error;
use crate::dotfile::ErrorKind;
use crate::dotfile::ErrorStage;

verus! {

/// One filesystem step the caller is asked to perform on the entry's
/// paths.
#[derive(Clone, Copy, Debug, PartialEq, Eq, Structural)]
pub enum LinkOp {
    /// Remove the destination file.
    RemoveDst,
    /// Create a hard link from the source file to the destination file.
    MakeLink,
}

/// What the caller observed when it performed a step: nothing on success,
/// or the failure classified with the message the host gave.
#[derive(Debug)]
pub struct FsFailure {
    pub kind: ErrorKind,
    pub message: String,
}

/// Where one link attempt stands.
#[derive(Debug)]
pub enum LinkPhase {
    /// The destination is being cleared before linking.
    Removing,
    /// The hard link is being created.
    Linking,
    /// The attempt is over: `None` is success, `Some` the surfaced failure.
    Done(Option<Error>),
}

/// One link attempt for one entry. Created with `new`, it repeatedly names
/// a step through `next_op`; the caller performs the step and reports back
/// through `observe` until the phase is `Done`.
///
/// An `AlreadyExists` failure of the link step is recovered once: the
/// machine orders a forced removal and links again. A second such failure
/// ends the attempt, so no sequence of outcomes makes it loop, and an
/// `AlreadyExists` failure of the link step is never the surfaced error.
#[derive(Debug)]
pub struct HardLink {
    pub phase: LinkPhase,
    pub retried: bool,
}

/// How many observations the attempt can still take: strictly decreasing
/// under `observe`, so an attempt is over after at most four steps.
pub open spec fn spec_steps_left(j: HardLink) -> int {
    match j.phase {
        LinkPhase::Done(_) => 0,
        LinkPhase::Linking => if j.retried {
            1
        } else {
            3
        },
        LinkPhase::Removing => if j.retried {
            2
        } else {
            4
        },
    }
}

/// Whether `e` is the failure surfaced for an unrecovered link-step
/// failure `f`: `NotFound` keeps its kind under a friendlier message,
/// `AlreadyExists` after the one allowed retry is reported as `Other`, and
/// everything else passes through.
pub open spec fn link_failure_matches(f: FsFailure, e: Error) -> bool {
    if f.kind == ErrorKind::NotFound {
        &&& e.kind == ErrorKind::NotFound
        &&& e.stage == ErrorStage::HardLink
        &&& e.message@ == "source file was not found"@
    } else if f.kind == ErrorKind::AlreadyExists {
        e == (Error { kind: ErrorKind::Other, stage: ErrorStage::HardLink, message: f.message })
    } else {
        e == (Error { kind: f.kind, stage: ErrorStage::HardLink, message: f.message })
    }
}

impl HardLink {
    /// A fresh attempt: it clears the destination first where `force` is
    /// set, else goes straight to linking.
    pub fn new(force: bool) -> (r: HardLink)
        ensures
            r.phase matches LinkPhase::Removing <==> force,
            !force ==> r.phase matches LinkPhase::Linking,
            !r.retried,
    {
        HardLink { phase: if force { LinkPhase::Removing } else { LinkPhase::Linking }, retried: false }
    }

    /// The step the caller should perform now, or `None` once the attempt
    /// is over.
    pub fn next_op(&self) -> (r: Option<LinkOp>)
        ensures
            match self.phase {
                LinkPhase::Removing => r == Some(LinkOp::RemoveDst),
                LinkPhase::Linking => r == Some(LinkOp::MakeLink),
                LinkPhase::Done(_) => r is None,
            },
    {
        match &self.phase {
            LinkPhase::Removing => Some(LinkOp::RemoveDst),
            LinkPhase::Linking => Some(LinkOp::MakeLink),
            LinkPhase::Done(_) => None,
        }
    }

    /// Feed back what the step `next_op` asked for came to. A removal
    /// failure ends the attempt at the removal stage; a removal success
    /// moves on to linking. A link success ends the attempt successfully;
    /// an `AlreadyExists` link failure orders one forced removal and retry,
    /// and every other link failure — or a repeated `AlreadyExists` — ends
    /// the attempt with the failure `link_failure_matches` describes. Each call
    /// brings `Done` strictly closer, and an error surfaced at the link
    /// stage is never `AlreadyExists`.
    pub fn observe(&mut self, outcome: Option<FsFailure>)
        requires
            !(old(self).phase is Done),
        ensures
            match old(self).phase {
                LinkPhase::Removing => match outcome {
                    None => final(self).phase matches LinkPhase::Linking && final(self).retried
                        == old(self).retried,
                    Some(f) => final(self).phase == LinkPhase::Done(
                        Some(
                            Error {
                                kind: f.kind,
                                stage: ErrorStage::RemoveFile,
                                message: f.message,
                            },
                        ),
                    ),
                },
                LinkPhase::Linking => match outcome {
                    None => final(self).phase == LinkPhase::Done(None::<Error>),
                    Some(f) => {
                        if f.kind == ErrorKind::AlreadyExists && !old(self).retried {
                            final(self).phase matches LinkPhase::Removing && final(self).retried
                        } else {
                            final(self).phase matches LinkPhase::Done(Some(e))
                                && link_failure_matches(f, e)
                        }
                    },
                },
                LinkPhase::Done(_) => false,
            },
            spec_steps_left(*final(self)) < spec_steps_left(*old(self)),
            final(self).phase matches LinkPhase::Done(Some(e)) ==> (e.stage == ErrorStage::HardLink
                ==> e.kind != ErrorKind::AlreadyExists),
    {
        match &self.phase {
            LinkPhase::Removing => match outcome {
                None => {
                    self.phase = LinkPhase::Linking;
                },
                Some(f) => {
                    self.phase = LinkPhase::Done(
                        Some(Error { kind: f.kind, stage: ErrorStage::RemoveFile, message: f.message }),
                    );
                },
            },
            LinkPhase::Linking => match outcome {
                None => {
                    self.phase = LinkPhase::Done(None);
                },
                Some(f) => {
                    if f.kind == ErrorKind::AlreadyExists && !self.retried {
                        self.phase = LinkPhase::Removing;
                        self.retried = true;
                    } else if f.kind == ErrorKind::NotFound {
                        self.phase = LinkPhase::Done(
                            Some(
                                Error {
                                    kind: ErrorKind::NotFound,
                                    stage: ErrorStage::HardLink,
                                    message: String::from_str("source file was not found"),
                                },
                            ),
                        );
                    } else if f.kind == ErrorKind::AlreadyExists {
                        self.phase = LinkPhase::Done(
                            Some(
                                Error {
                                    kind: ErrorKind::Other,
                                    stage: ErrorStage::HardLink,
                                    message: f.message,
                                },
                            ),
                        );
                    } else {
                        self.phase = LinkPhase::Done(
                            Some(
                                Error {
                                    kind: f.kind,
                                    stage: ErrorStage::HardLink,
                                    message: f.message,
                                },
                            ),
                        );
                    }
                },
            },
            LinkPhase::Done(_) => {
                proof {
                    assert(false);
                }
            },
        }
    }

    /// The attempt's result once it is over: `Some(None)` for success,
    /// `Some(Some(e))` for the surfaced failure, `None` while steps remain.
    pub fn result(&self) -> (r: Option<Option<Error>>)
        ensures
            match self.phase {
                LinkPhase::Done(e) => r == Some(e),
                _ => r is None,
            },
    {
        match &self.phase {
            LinkPhase::Done(e) => match e {
                None => Some(None),
                Some(err) => Some(Some(err.clone())),
            },
            _ => None,
        }
    }
}

/// A link attempt never runs away: it starts with at most four steps left,
/// and `observe` strictly decreases the count, so every attempt reaches
/// `Done` within four observations, whatever the filesystem answers.
pub proof fn lemma_link_attempt_bounded(j: HardLink)
    ensures
        spec_steps_left(j) <= 4,
        spec_steps_left(j) >= 0,
        spec_steps_left(j) == 0 <==> j.phase is Done,
{
}

} // verus!
