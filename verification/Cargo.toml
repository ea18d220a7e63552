[package]
name = "framed_serial"
version = "0.1.0"
edition = "2021"
publish = false

[dependencies]
bytes = "=1.12.1"
futures = "=0.3.34"
serialport = { version = "=4.10.1", default-features = false, features = ["usbportinfo-interface"] }
thiserror = "=1.0.69"
tokio = { version = "=1.54.1", features = ["sync", "rt", "macros", "time"] }
tokio-serial = { version = "=5.5.0", default-features = false }
tokio-stream = { version = "=0.1.19", features = ["sync"] }
tokio-util = { version = "=0.7.20", features = ["codec"] }
tracing = "=0.1.44"
