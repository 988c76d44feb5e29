//! A slug-keyed blog of owned text posts that accrue donations.
//!
//! Every post belongs to the account that published it. Its owner may update
//! it, delete it and withdraw what was donated to it; anyone may look it up
//! and add to its donation.
//!
//! The library decides; it keeps nothing. Whoever embeds it looks a post up,
//! asks the operation in `decisions` what is to happen, and then stores,
//! removes and pays as told. `model` says what a blog that is run this way
//! looks like, and `laws` what holds of it.

pub mod context;
pub mod decisions;
pub mod error;
pub mod laws;
pub mod model;
pub mod policy;
pub mod post;

pub use context::CallerContext;
pub use error::BlogError;
pub use post::Post;
