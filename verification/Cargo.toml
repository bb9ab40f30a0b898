[package]
name = "vhost_user"
version = "0.1.0"
edition = "2021"
publish = false

[dependencies]
anyhow = "=1.0.104"
blocking = "=1.7.0"
thiserror = "=2.0.21"
tracing = "=0.1.44"
uds_windows = "1"
vhost = { version = "=0.18.0", features = ["vhost-user", "vhost-user-frontend"] }
vmm-sys-util = "=0.15.0"
windows-sys = { version = "=0.61.2", features = ["Win32_Foundation", "Win32_System_Threading", "Win32_Security"] }
