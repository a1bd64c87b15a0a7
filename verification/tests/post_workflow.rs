use state_machine::Post;
use state_machine::State;

fn pending(approvals: u8) -> State {
    State::PendingReview { approvals }
}

fn draft_with(text: &str) -> Post {
    let mut post = Post::new();
    post.add_text(text);
    post
}

fn pending_with(text: &str) -> Post {
    let mut post = draft_with(text);
    post.request_review();
    post
}

fn published_with(text: &str) -> Post {
    let mut post = pending_with(text);
    post.approve();
    post.approve();
    post
}

#[test]
fn new_post_is_an_empty_draft() {
    let post = Post::new();
    assert_eq!(post.state(), State::Draft);
    assert_eq!(post.content(), "");
}

#[test]
fn new_post_publishes_empty_text() {
    let mut post = Post::new();
    post.request_review();
    post.approve();
    post.approve();
    assert_eq!(post.state(), State::Published);
    assert_eq!(post.content(), "");
}

#[test]
fn lunch_diary_script() {
    let mut post = Post::new();

    post.add_text("I ate a salad for lunch today");
    assert_eq!("", post.content());

    post.request_review();
    assert_eq!("", post.content());

    post.reject();
    assert_eq!("", post.content());

    post.request_review();
    assert_eq!("", post.content());

    post.add_text("I ate pizza for lunch today");

    post.approve();
    assert_eq!("", post.content());

    post.approve();
    assert_eq!("I ate a salad for lunch today", post.content());
}

#[test]
fn round_trip_through_rejection() {
    let mut post = Post::new();
    assert_eq!(post.state(), State::Draft);
    post.add_text("A");

    post.request_review();
    assert_eq!(post.state(), pending(0));
    assert_eq!(post.content(), "");

    post.reject();
    assert_eq!(post.state(), State::Draft);

    post.request_review();
    assert_eq!(post.state(), pending(0));

    post.add_text("B");
    assert_eq!(post.state(), pending(0));

    post.approve();
    assert_eq!(post.state(), pending(1));
    assert_eq!(post.content(), "");

    post.approve();
    assert_eq!(post.state(), State::Published);
    assert_eq!(post.content(), "A");
}

#[test]
fn first_approval_keeps_pending_second_publishes() {
    let mut post = pending_with("text");
    assert_eq!(post.state(), pending(0));

    post.approve();
    assert_eq!(post.state(), pending(1));
    assert_ne!(post.state(), State::Published);
    assert_eq!(post.content(), "");

    post.approve();
    assert_eq!(post.state(), State::Published);
    assert_eq!(post.content(), "text");
}

#[test]
fn draft_ignores_approve_and_reject() {
    let mut post = draft_with("kept");

    post.approve();
    assert_eq!(post.state(), State::Draft);
    post.approve();
    post.approve();
    assert_eq!(post.state(), State::Draft);

    post.reject();
    assert_eq!(post.state(), State::Draft);
    assert_eq!(post.content(), "");

    // Approvals given to a draft do not count later on.
    post.request_review();
    assert_eq!(post.state(), pending(0));
    post.approve();
    assert_eq!(post.state(), pending(1));
    post.approve();
    assert_eq!(post.content(), "kept");
}

#[test]
fn pending_ignores_request_review() {
    let mut post = pending_with("x");
    post.request_review();
    assert_eq!(post.state(), pending(0));

    post.approve();
    post.request_review();
    post.request_review();
    assert_eq!(post.state(), pending(1));
    assert_eq!(post.content(), "");
}

#[test]
fn published_ignores_every_operation() {
    let mut post = published_with("final");
    assert_eq!(post.state(), State::Published);

    for _ in 0..3 {
        post.request_review();
        assert_eq!(post.state(), State::Published);
        assert_eq!(post.content(), "final");

        post.approve();
        assert_eq!(post.state(), State::Published);
        assert_eq!(post.content(), "final");

        post.reject();
        assert_eq!(post.state(), State::Published);
        assert_eq!(post.content(), "final");

        post.add_text(" more");
        assert_eq!(post.state(), State::Published);
        assert_eq!(post.content(), "final");
    }
}

#[test]
fn content_is_hidden_until_published() {
    let mut post = draft_with("secret");
    assert_eq!(post.content(), "");

    post.request_review();
    assert_eq!(post.content(), "");

    post.approve();
    assert_eq!(post.content(), "");

    post.approve();
    assert_eq!(post.content(), "secret");
}

#[test]
fn add_text_appends_in_draft() {
    let mut post = Post::new();
    post.add_text("ab");
    post.add_text("cd");
    post.add_text("");
    post.add_text("e");
    assert_eq!(post.state(), State::Draft);

    post.request_review();
    post.approve();
    post.approve();
    assert_eq!(post.content(), "abcde");
}

#[test]
fn add_text_keeps_text_beyond_ascii() {
    let mut post = Post::new();
    post.add_text("caf\u{e9} ");
    post.add_text("\u{1f355}");
    post.request_review();
    post.approve();
    post.approve();
    assert_eq!(post.content(), "caf\u{e9} \u{1f355}");
    assert_eq!(post.content().chars().count(), 6);
}

#[test]
fn add_text_is_ignored_while_pending() {
    let mut post = pending_with("A");
    post.add_text("B");
    post.approve();
    post.add_text("C");
    post.approve();
    assert_eq!(post.content(), "A");
}

#[test]
fn add_text_is_ignored_once_published() {
    let mut post = published_with("A");
    post.add_text("B");
    assert_eq!(post.content(), "A");
}

#[test]
fn add_text_works_again_after_rejection() {
    let mut post = pending_with("A");
    post.add_text("x");
    post.reject();
    post.add_text("B");
    post.request_review();
    post.approve();
    post.approve();
    assert_eq!(post.content(), "AB");
}

#[test]
fn rejection_discards_approvals() {
    let mut post = pending_with("A");
    post.approve();
    assert_eq!(post.state(), pending(1));

    post.reject();
    assert_eq!(post.state(), State::Draft);

    post.request_review();
    assert_eq!(post.state(), pending(0));

    // One approval before the rejection and one after do not add up.
    post.approve();
    assert_eq!(post.state(), pending(1));
    assert_eq!(post.content(), "");

    post.approve();
    assert_eq!(post.state(), State::Published);
    assert_eq!(post.content(), "A");
}

#[test]
fn other_operations_between_approvals_do_not_count() {
    let mut post = pending_with("A");
    post.approve();
    post.request_review();
    post.add_text("B");
    post.request_review();
    assert_eq!(post.state(), pending(1));
    post.approve();
    assert_eq!(post.state(), State::Published);
    assert_eq!(post.content(), "A");
}

#[test]
fn repeated_rejection_stays_draft() {
    let mut post = pending_with("A");
    post.reject();
    post.reject();
    assert_eq!(post.state(), State::Draft);
    assert_eq!(post.content(), "");
}
