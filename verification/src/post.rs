//! The post itself: its text, its stage, and the operations on it.

use crate::state::State;
use vstd::prelude::*;
use vstd::string::StringExecFns;

verus! {

/// What a post is, mathematically: a stage and the text written so far.
pub struct PostView {
    pub state: State,
    pub content: Seq<char>,
}

impl PostView {
    /// A fresh post: an empty draft.
    pub open spec fn new() -> PostView {
        PostView { state: State::Draft, content: Seq::empty() }
    }

    /// Appending `text`: it lands only while the stage lets the text change.
    pub open spec fn add_text(self, text: Seq<char>) -> PostView {
        if self.state.editable() {
            PostView { state: self.state, content: self.content + text }
        } else {
            self
        }
    }

    /// An approval moves the stage and leaves the text alone.
    pub open spec fn approve(self) -> PostView {
        PostView { state: self.state.approved(), content: self.content }
    }

    /// What readers see.
    pub open spec fn content(self) -> Seq<char> {
        self.state.shown(self.content)
    }

    /// A rejection moves the stage and leaves the text alone.
    pub open spec fn reject(self) -> PostView {
        PostView { state: self.state.rejected(), content: self.content }
    }

    /// A request for review moves the stage and leaves the text alone.
    pub open spec fn request_review(self) -> PostView {
        PostView { state: self.state.review_requested(), content: self.content }
    }
}

/// A post moving through the workflow.
pub struct Post {
    state: State,
    content: String,
}

impl View for Post {
    type V = PostView;

    closed spec fn view(&self) -> PostView {
        PostView { state: self.state, content: self.content@ }
    }
}

impl Post {
    /// Every post holds a well-formed stage.
    #[verifier::type_invariant]
    closed spec fn inv(self) -> bool {
        self.state.wf()
    }

    /// Creates an empty draft.
    pub fn new() -> (post: Post)
        ensures
            post@ == PostView::new(),
    {
        Post { state: State::Draft, content: String::new() }
    }

    /// Appends `text` to a draft. In any other stage the call does nothing.
    pub fn add_text(&mut self, text: &str)
        ensures
            final(self)@ == old(self)@.add_text(text@),
            final(self)@.state == old(self)@.state,
            old(self)@.state is Draft ==> final(self)@.content == old(self)@.content + text@,
            old(self)@.state !is Draft ==> final(self)@.content == old(self)@.content,
    {
        let modifiable = self.state.modify_flag();
        if modifiable {
            // The text is lent out for the append and handed back after it.
            let mut buffer = String::new();
            core::mem::swap(&mut self.content, &mut buffer);
            buffer.append(text);
            core::mem::swap(&mut self.content, &mut buffer);
        }
    }

    /// Records one approval: the second one given to a pending post
    /// publishes it. The text is untouched.
    pub fn approve(&mut self)
        ensures
            final(self)@ == old(self)@.approve(),
            final(self)@.content == old(self)@.content,
            final(self)@.state.wf(),
    {
        proof {
            use_type_invariant(&*self);
        }
        self.state = self.state.approve();
    }

    /// The text as readers see it: empty until the post is published, the
    /// whole text from then on.
    pub fn content(&self) -> (visible: &str)
        ensures
            visible@ == self@.content(),
            self@.state is Published ==> visible@ == self@.content,
            self@.state !is Published ==> visible@ == Seq::<char>::empty(),
    {
        self.state.content(self.content.as_str())
    }

    /// Sends a pending post back to draft and forgets its approvals. The
    /// text is untouched.
    pub fn reject(&mut self)
        ensures
            final(self)@ == old(self)@.reject(),
            final(self)@.content == old(self)@.content,
            final(self)@.state.wf(),
    {
        self.state = self.state.reject();
    }

    /// Submits a draft for approval. The text is untouched.
    pub fn request_review(&mut self)
        ensures
            final(self)@ == old(self)@.request_review(),
            final(self)@.content == old(self)@.content,
            final(self)@.state.wf(),
    {
        proof {
            use_type_invariant(&*self);
        }
        self.state = self.state.request_review();
    }

    /// The stage the post is in.
    pub fn state(&self) -> (state: State)
        ensures
            state == self@.state,
            state.wf(),
    {
        proof {
            use_type_invariant(self);
        }
        self.state
    }
}

} // verus!
