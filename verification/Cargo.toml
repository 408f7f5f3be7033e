[package]
name = "async_backplane"
version = "0.1.0"
edition = "2021"
publish = false

[dependencies]
concurrent-queue = "=1.2.4"
waker-queue = "=0.1.0"
maybe-unwind = "=0.3.1"
futures-lite = "=2.6.1"
futures-micro = "=0.5.0"
pin-project-lite = "=0.2.17"
