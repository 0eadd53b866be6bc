[package]
name = "notification_server"
version = "0.1.0"
edition = "2021"
publish = false

[dependencies]
actix-multipart = "0.6"
actix-web = { version = "4", default-features = false, features = ["macros"] }
anyhow = "1"
base64 = "0.21"
bytes = "1"
clap = { version = "4", features = ["derive"] }
env_logger = "0.10"
futures-util = "0.3"
log = "0.4"
serde = { version = "1", features = ["derive"] }
serde_json = "1"
serde_urlencoded = "0.7"
uuid = { version = "1", features = ["v4"] }
windows = { version = "0.48", features = ["Data_Xml_Dom", "Foundation", "UI_Notifications", "Win32_Foundation", "Win32_System_Com", "Win32_System_DataExchange", "Win32_System_Memory", "Win32_System_Registry"] }
