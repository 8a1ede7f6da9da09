[package]
name = "lightshow"
version = "0.1.0"
edition = "2021"
publish = false

[dependencies]
smart-leds = "=0.4.0"
embassy-time = { version = "=0.5.1", features = ["std"] }
embassy-sync = "=0.8.0"
critical-section = { version = "=1.2.0", features = ["std"] }
embassy-futures = "=0.1.2"
embassy-executor = { version = "=0.9.1", features = ["arch-std", "executor-thread"] }
embassy-rp = { version = "=0.10.0", features = ["rp235xa", "_test"] }
embassy-usb = "=0.5.1"
defmt = "=1.2.0"
defmt-embassy-usbserial = "=0.2.1"
panic-probe = "=1.0.0"
