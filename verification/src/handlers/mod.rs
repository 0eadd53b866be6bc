pub mod web;

pub use web::send_notification;
