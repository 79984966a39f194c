[package]
name = "candy_weigher"
version = "0.1.0"
edition = "2021"
publish = false

[dependencies]
embassy-time = { version = "=0.5.1", features = ["std"] }
embassy-sync = { version = "=0.7.2", features = ["std"] }
embassy-futures = "=0.1.2"
embassy-executor = { version = "=0.9.1", features = ["arch-std", "executor-thread"] }
rand = { version = "=0.8.8", default-features = false }
serde = { version = "=1.0.229", default-features = false, features = ["derive"] }
postcard = "=1.1.3"
heapless = "=0.8.0"
embedded-graphics = "=0.8.2"
eg-seven-segment = "=0.2.0"
pin-project = "=1.1.13"
static_cell = "=2.1.1"
defmt = "=1.2.0"
embassy-rp = { version = "0.8", features = ["rp2040", "time-driver", "critical-section-impl"] }
embassy-embedded-hal = "0.5"
mipidsi = "0.9"
defmt-rtt = "1"
panic-probe = { version = "1", features = ["print-defmt"] }
