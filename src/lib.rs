//! Clipboard history picker: a bounded most-recently-used history of copied
//! text, an event funnel that merges notifications from independent
//! producers, and the selection state machine that drives the picker.

pub mod coordinator;
pub mod funnel;
pub mod history;
pub mod picker;
pub mod selection;
