//! Copying a dashboard between two monitoring instances: the document model,
//! the rewriting of notification channel references, and the reconciliation
//! of identity and version against what the destination already holds.

pub mod channels;
pub mod client;
pub mod config;
pub mod copy;
pub mod document;
pub mod notifications;
pub mod reconcile;
pub mod text;
