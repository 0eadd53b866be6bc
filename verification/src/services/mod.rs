pub mod manager;

pub use manager::NotificationManager;
