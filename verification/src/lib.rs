//! Rules of a child-friendly video finder: reading provider data, asking a
//! classifier about batches of videos, ranking what it approved and planning
//! what is written to the cache.

pub mod analysis;
pub mod batch;
pub mod captions;
pub mod classify;
mod clock;
pub mod connectivity;
pub mod duration;
pub mod filter;
pub mod json;
pub mod model;
pub mod pipeline;
pub mod prompt;
pub mod requests;
pub mod responses;
pub mod retry;
pub mod search;
pub mod settings;
pub mod store;
pub mod text;
