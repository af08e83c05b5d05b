[package]
name = "rubevy"
version = "0.1.0"
edition = "2021"
publish = false

[dependencies]
bevy = { version = "=0.19.1", default-features = false, features = ["std", "bevy_asset", "bevy_log", "async_executor"] }
sabiruby = "=0.8.0"
thiserror = "=2.0.21"

[dev-dependencies]
sabiruby-compiler = "=0.5.0"
