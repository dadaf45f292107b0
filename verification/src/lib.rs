//! Install orchestration and completion tracking for a per-version editor
//! binary: the version catalog, the artifact locator, the dispatch state
//! machine, completion tokens, the process liveness monitor and the
//! confirmation handler.

pub mod confirm;
pub mod dispatch;
pub mod liveness;
pub mod locator;
pub mod model;
pub mod reply;
pub mod text;
pub mod token;
