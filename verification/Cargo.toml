[package]
name = "chat_bridge"
version = "0.1.0"
edition = "2021"
publish = false

[dependencies]
atomic-take = "1"
bytes = "1"
derive_more = { version = "2", features = ["deref", "from", "into", "try_from"] }
futures-util = "0.3"
http = "1"
log = "0.4"
static_assertions = "1"
tokio = { version = "1", features = ["macros", "rt", "sync", "time"] }

[dev-dependencies]
uuid = "1"
