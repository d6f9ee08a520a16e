[package]
name = "phr_rpcem"
version = "0.1.0"
edition = "2021"
publish = false

[dependencies]
heapless = "=0.9.3"
serde = { version = "=1.0.229", default-features = false, features = ["derive"] }
num-traits = "=0.2.19"
format_no_std = "=1.2.0"
embedded-graphics = "=0.8.2"
portable-atomic = "=1.15.0"
static_cell = "=2.1.1"
embedded-hal = "=1.0.0"
embedded-hal-async = "=1.0.0"
embassy-rp = { version = "=0.10.0", features = ["rp2040", "time-driver", "critical-section-impl"] }
embassy-executor = "=0.9.1"
embassy-time = "=0.5.1"
embassy-sync = "=0.8.0"
embassy-futures = "=0.1.2"
cortex-m = "=0.7.10"
cortex-m-rt = "=0.7.7"
defmt = "=1.2.0"
defmt-rtt = "=1.3.1"
panic-probe = "=1.0.0"
