//! Event-driven models of three UI components of the Conduit blogging
//! client: a comment-submission form, a marketing banner for anonymous
//! visitors, and a user-profile page.
//!
//! Each component is an explicit state machine. `update` consumes one
//! message and returns whether the component should re-render together
//! with the effect the surrounding shell must perform (issue a network
//! request, notify a parent). `view` returns a structured description of
//! what is rendered. Rendering markup and HTTP transport live outside
//! this crate, in an unverified shell that performs the effects and feeds
//! the responses back as messages.

pub mod banner;
pub mod comment_input;
pub mod profile;
pub mod types;
