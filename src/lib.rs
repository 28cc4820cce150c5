//! The view model of a media catalog's details screen, reconciled from fetches
//! that load and fail independently, and the lifecycle of the runtime that
//! owns the state it is built from.

pub mod dispatch;
pub mod extensions;
pub mod library;
pub mod loadable;
pub mod meta_details;
pub mod runtime;
pub mod selection;
pub mod title;
pub mod types;
