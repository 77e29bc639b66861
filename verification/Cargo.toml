[package]
name = "starry"
version = "0.1.0"
edition = "2021"
publish = false

[dependencies]
anyhow = "=1.0.104"
ax-errno = "=0.4.8"
axfs-ng-vfs = "=0.5.8"
axpoll = "=0.3.11"
clap = { version = "=4.6.7", features = ["derive"] }
spin = "=0.10.1"
tokio = { version = "=1.54.1", features = ["rt"] }

[dev-dependencies]
tempfile = "=3.27.0"
