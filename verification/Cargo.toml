[package]
name = "pjsip_client"
version = "0.1.0"
edition = "2021"
publish = false

[dependencies]
tokio = { version = "1", default-features = false, features = ["sync", "rt", "rt-multi-thread"] }
futures = { version = "0.3", default-features = false, features = ["std"] }
thingbuf = "0.1"
