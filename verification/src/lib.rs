//! An editorial workflow for a single post, as a finite-state machine.
//!
//! A post starts as a draft, waits for approvals once a review is requested,
//! and shows its text to readers only after it has been published.

pub mod post;
pub mod state;
pub mod workflow;

pub use post::Post;
pub use post::PostView;
pub use state::State;
pub use state::APPROVAL_QUOTA;
