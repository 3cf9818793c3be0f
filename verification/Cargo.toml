[package]
name = "touchboard"
version = "0.1.0"
edition = "2021"
publish = false

[dependencies]
cortex-m = "=0.7.10"
cortex-m-rt = "=0.7.7"
embassy-executor = { version = "=0.10.0", features = ["platform-std", "executor-thread"] }
embassy-rp = { version = "=0.10.0", features = ["rp235xa", "time-driver", "critical-section-impl", "_test"] }
embassy-sync = "=0.8.0"
embassy-time = "=0.5.1"
embassy-usb = "=0.6.0"
embedded-hal-async = "=1.0.0"
portable-atomic = "=1.15.0"
rp235x-hal = { version = "=0.4.0", features = ["rt", "binary-info"] }
smart-leds = "=0.4.0"
static_cell = "=2.1.1"
