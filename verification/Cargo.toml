[package]
name = "bevy_support_misc"
version = "0.1.0"
edition = "2021"
publish = false

[dependencies]
anyhow = "1"
bevy = { version = "=0.18.1", default-features = false, features = ["bevy_state", "bevy_color", "bevy_asset", "bevy_log", "bevy_ui", "bevy_picking"] }
bevy_rand = { version = "=0.13.0", default-features = false, features = ["wyrand"] }
bincode = { version = "2", features = ["serde"] }
dirs = "7"
fastrand = "2"
postcard = { version = "1", features = ["alloc"] }
rand = "0.9"
serde = { version = "1", features = ["derive"] }
simple_crypt = "0.2.3"
thiserror = "2"
