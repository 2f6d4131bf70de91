[package]
name = "cgroup_skb_egress"
version = "0.1.0"
edition = "2021"
publish = false

[dependencies]
anyhow = "1"
aya = "*"
clap = { version = "4", features = ["derive"] }
log = "0.4"
tokio = { version = "1", features = ["macros", "rt-multi-thread", "signal", "time"] }
