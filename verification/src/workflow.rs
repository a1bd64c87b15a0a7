//! Histories of a post: what holds after any sequence of operations.
//!
//! The operations of a post are modelled as events, a history is a sequence
//! of events, and the lemmas below say what every history preserves.

use crate::post::PostView;
use crate::state::State;
use crate::state::APPROVAL_QUOTA;
use vstd::prelude::*;

verus! {

/// One operation on a post.
pub enum Event {
    AddText(Seq<char>),
    RequestReview,
    Approve,
    Reject,
}

/// The post after one event.
pub open spec fn step(post: PostView, event: Event) -> PostView {
    match event {
        Event::AddText(text) => post.add_text(text),
        Event::RequestReview => post.request_review(),
        Event::Approve => post.approve(),
        Event::Reject => post.reject(),
    }
}

/// The post after a history, oldest event first.
pub open spec fn run(post: PostView, events: Seq<Event>) -> PostView
    decreases events.len(),
{
    if events.len() == 0 {
        post
    } else {
        step(run(post, events.drop_last()), events.last())
    }
}

/// Number of approvals in a history.
pub open spec fn approvals_in(events: Seq<Event>) -> nat
    decreases events.len(),
{
    if events.len() == 0 {
        0
    } else {
        approvals_in(events.drop_last()) + if events.last() is Approve {
            1nat
        } else {
            0nat
        }
    }
}

/// A history in which nobody rejects.
pub open spec fn without_rejection(events: Seq<Event>) -> bool {
    forall|i: int| 0 <= i < events.len() ==> !(#[trigger] events[i] is Reject)
}

/// An operation for which a stage has no rule leaves the stage as it is:
/// only a draft answers a request for review, and only a pending post
/// answers an approval or a rejection. Asking for review or rejecting a
/// second time changes nothing more than the first time did.
pub proof fn lemma_operation_without_rule_keeps_state(state: State)
    ensures
        state !is Draft ==> state.review_requested() == state,
        state !is PendingReview ==> state.approved() == state,
        state !is PendingReview ==> state.rejected() == state,
        state.review_requested().review_requested() == state.review_requested(),
        state.rejected().rejected() == state.rejected(),
{
}

/// An operation for which the stage has no rule leaves the whole post as it
/// is, text included.
pub proof fn lemma_operation_without_rule_keeps_post(post: PostView)
    ensures
        post.state !is Draft ==> post.request_review() == post,
        post.state !is PendingReview ==> post.approve() == post,
        post.state !is PendingReview ==> post.reject() == post,
{
}

/// Readers see nothing of a post that is not published, and all of the text
/// of one that is.
pub proof fn lemma_visible_only_when_published(post: PostView)
    ensures
        post.state !is Published ==> post.content() == Seq::<char>::empty(),
        post.state is Published ==> post.content() == post.content,
{
}

/// Appending a non-empty text changes the stored text exactly when the post
/// is a draft.
pub proof fn lemma_text_changes_exactly_in_draft(post: PostView, text: Seq<char>)
    requires
        text.len() > 0,
    ensures
        post.add_text(text).content != post.content <==> post.state is Draft,
        post.add_text(text).state == post.state,
{
    if post.state is Draft {
        assert(post.add_text(text).content.len() == post.content.len() + text.len());
    }
}

/// Whatever the event, the stored text changes only by an append to a draft.
pub proof fn lemma_text_is_frozen_outside_draft(post: PostView, event: Event)
    ensures
        step(post, event).content != post.content ==> post.state is Draft && event is AddText,
        !(event is AddText) ==> step(post, event).content == post.content,
{
}

/// The approval count of a pending post moves only by an approval: any
/// other event that leaves the post pending leaves the count where it was,
/// and a post that has just become pending starts from zero.
pub proof fn lemma_only_approval_counts(post: PostView, event: Event)
    requires
        !(event is Approve),
        step(post, event).state is PendingReview,
    ensures
        post.state is PendingReview ==> step(post, event).state == post.state,
        post.state !is PendingReview ==> step(post, event).state == (State::PendingReview {
            approvals: 0,
        }),
{
}

/// An approval of a pending post adds exactly one to its count, and
/// publishes the post when the count thereby reaches the quota.
pub proof fn lemma_approval_counts_one(post: PostView)
    requires
        post.state is PendingReview,
    ensures
        post.approve().state is PendingReview ==> post.approve().state.approvals()
            == post.state.approvals() + 1,
        post.approve().state is Published <==> post.state.approvals() + 1 >= APPROVAL_QUOTA,
        post.approve().state is PendingReview || post.approve().state is Published,
{
}

/// A rejection discards the approvals: the post is a draft again, and the
/// next request for review starts counting from zero.
pub proof fn lemma_rejection_discards_approvals(post: PostView)
    requires
        post.state is PendingReview,
    ensures
        post.reject().state == State::Draft,
        post.reject().request_review().state == (State::PendingReview { approvals: 0 }),
        post.reject().content == post.content,
{
}

/// A post becomes published only by the approval that completes the quota.
pub proof fn lemma_published_only_by_last_approval(post: PostView, event: Event)
    requires
        post.state.wf(),
        post.state !is Published,
        step(post, event).state is Published,
    ensures
        event is Approve,
        post.state == (State::PendingReview { approvals: 1 }),
{
}

/// From the moment a review is requested, and as long as nobody rejects,
/// the post is published exactly when two approvals have been given; until
/// then it is pending with the number of approvals given so far. The text
/// does not change on the way.
pub proof fn lemma_published_after_quota(post: PostView, events: Seq<Event>)
    requires
        post.state == (State::PendingReview { approvals: 0 }),
        without_rejection(events),
    ensures
        run(post, events).content == post.content,
        run(post, events).state is Published <==> approvals_in(events) >= APPROVAL_QUOTA,
        approvals_in(events) < APPROVAL_QUOTA ==> run(post, events).state
            == (State::PendingReview { approvals: approvals_in(events) as u8 }),
    decreases events.len(),
{
    if events.len() > 0 {
        let earlier = events.drop_last();
        assert(without_rejection(earlier)) by {
            assert forall|i: int| 0 <= i < earlier.len() implies !(#[trigger] earlier[i]
                is Reject) by {
                assert(earlier[i] == events[i]);
            }
        }
        lemma_published_after_quota(post, earlier);
        assert(!(events.last() is Reject)) by {
            assert(events.last() == events[events.len() - 1]);
        }
    }
}

/// Published is final: no history changes the stage or the text of a
/// published post, nor what readers see of it.
pub proof fn lemma_published_is_final(post: PostView, events: Seq<Event>)
    requires
        post.state is Published,
    ensures
        run(post, events) == post,
        run(post, events).content() == post.content(),
    decreases events.len(),
{
    if events.len() > 0 {
        lemma_published_is_final(post, events.drop_last());
    }
}

/// Every history keeps a well-formed post well formed: a pending post
/// never holds as many approvals as the quota.
pub proof fn lemma_run_keeps_well_formed(post: PostView, events: Seq<Event>)
    requires
        post.state.wf(),
    ensures
        run(post, events).state.wf(),
    decreases events.len(),
{
    if events.len() > 0 {
        lemma_run_keeps_well_formed(post, events.drop_last());
    }
}

} // verus!
