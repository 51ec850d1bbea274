[package]
name = "latex_bridge"
version = "0.1.0"
edition = "2021"
publish = false

[dependencies]
jni = "=0.21.1"
tectonic = { version = "=0.17.0", default-features = false }

[dev-dependencies]
jni = { version = "=0.21.1", features = ["invocation"] }
