pub mod basic;
pub mod markup;
pub mod tag;
pub mod types;

pub use basic::BasicNotification;
pub use types::{NotificationData, NotificationKind, NotificationRequest, NotificationType};
