[package]
name = "lora_e5"
version = "0.1.0"
edition = "2021"
publish = false

[dependencies]
arrayvec = { version = "0.7", default-features = false }
embedded-hal = "0.2"
nb = "1"
embedded-sensors = { version = "*", features = ["bh1750"] }
esp32-hal = "*"
esp-backtrace = { version = "*", features = ["esp32", "panic-handler", "println"] }
esp-println = { version = "*", features = ["esp32"] }
