//! The core of a server that shows desktop notifications on request and
//! reacts when the user answers them.
//!
//! A request is read into a [`notifications::NotificationRequest`]
//! ([`ingest`]), rendered to markup under a fresh tag
//! ([`notifications::basic`], [`notifications::tag`]) and entered in the
//! table of sent notifications ([`store`], [`services::manager`]). When the
//! platform later reports an event under that tag, [`router`] decides what
//! it sets off. [`utils::auth`] decides which requests are let in, and
//! [`handlers::web`] words the answers.
//!
//! Nothing here touches the network, the file system or the platform: the
//! functions take what was read and hand back what is to be done.

pub mod errors;
pub mod handlers;
pub mod ingest;
pub mod notifications;
pub mod router;
pub mod services;
pub mod store;
pub mod text;
pub mod utils;
