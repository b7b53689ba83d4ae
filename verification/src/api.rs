//! Utilities for APIs: request-body extraction and standard JSON replies.

pub mod guards;
pub mod replies;
