[package]
name = "async-timer"
version = "0.1.0"
edition = "2021"
publish = false

[dependencies]
libc = "0.2"
mio = "0.6"
tokio = { version = "0.2", default-features = false, features = ["io-driver", "rt-core"] }

[dev-dependencies]
futures-util = "0.3"
