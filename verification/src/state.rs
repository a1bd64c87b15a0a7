//! The stages of the workflow and the rule each stage has for every operation.

use vstd::prelude::*;

verus! {

/// Number of approvals a pending post needs before it is published.
pub const APPROVAL_QUOTA: u8 = 2;

/// The stage a post is in.
#[derive(Clone, Copy, Debug, PartialEq, Eq, Structural)]
pub enum State {
    /// Being written: the text may grow, readers see nothing.
    Draft,
    /// Waiting for approvals; `approvals` counts those given since the
    /// review was requested.
    PendingReview { approvals: u8 },
    /// Released: the text is frozen and readers see all of it.
    Published,
}

impl State {
    /// A stored stage is well formed when a pending post is still short of
    /// the quota: one that reaches it is published at once.
    pub open spec fn wf(self) -> bool {
        self matches State::PendingReview { approvals } ==> approvals < APPROVAL_QUOTA
    }

    /// Approvals collected so far; zero outside `PendingReview`.
    pub open spec fn approvals(self) -> nat {
        match self {
            State::PendingReview { approvals } => approvals as nat,
            _ => 0,
        }
    }

    /// Whether text may be appended in this stage.
    pub open spec fn editable(self) -> bool {
        self is Draft
    }

    /// What readers see of `text` in this stage.
    pub open spec fn shown(self, text: Seq<char>) -> Seq<char> {
        if self is Published {
            text
        } else {
            Seq::empty()
        }
    }

    /// The stage that follows a request for review.
    pub open spec fn review_requested(self) -> State {
        match self {
            State::Draft => State::PendingReview { approvals: 0 },
            _ => self,
        }
    }

    /// The stage that follows one approval.
    pub open spec fn approved(self) -> State {
        match self {
            State::PendingReview { approvals } => if approvals + 1 >= APPROVAL_QUOTA {
                State::Published
            } else {
                State::PendingReview { approvals: (approvals + 1) as u8 }
            },
            _ => self,
        }
    }

    /// The stage that follows a rejection.
    pub open spec fn rejected(self) -> State {
        match self {
            State::PendingReview { .. } => State::Draft,
            _ => self,
        }
    }

    /// Counts one approval. A pending post moves to `Published` when the
    /// count reaches the quota; a draft or a published post stays as it is.
    pub fn approve(self) -> (next: State)
        ensures
            next == self.approved(),
            self.wf() ==> next.wf(),
    {
        match self {
            State::PendingReview { approvals } => {
                if approvals >= APPROVAL_QUOTA - 1 {
                    State::Published
                } else {
                    State::PendingReview { approvals: approvals + 1 }
                }
            },
            _ => self,
        }
    }

    /// The part of `text` that readers may see: all of it once published,
    /// nothing before.
    pub fn content<'a>(&self, text: &'a str) -> (visible: &'a str)
        ensures
            visible@ == self.shown(text@),
    {
        match self {
            State::Published => text,
            _ => {
                proof {
                    reveal_strlit("");
                }
                ""
            },
        }
    }

    /// Whether the text may be changed in this stage: only in a draft.
    pub fn modify_flag(&self) -> (flag: bool)
        ensures
            flag == self.editable(),
    {
        match self {
            State::Draft => true,
            _ => false,
        }
    }

    /// Sends a pending post back to `Draft`, dropping its approvals; a draft
    /// or a published post stays as it is.
    pub fn reject(self) -> (next: State)
        ensures
            next == self.rejected(),
            next.wf(),
    {
        match self {
            State::PendingReview { .. } => State::Draft,
            _ => self,
        }
    }

    /// Moves a draft to `PendingReview` with no approvals yet; a pending or
    /// a published post stays as it is.
    pub fn request_review(self) -> (next: State)
        ensures
            next == self.review_requested(),
            self.wf() ==> next.wf(),
    {
        match self {
            State::Draft => State::PendingReview { approvals: 0 },
            _ => self,
        }
    }
}

} // verus!
