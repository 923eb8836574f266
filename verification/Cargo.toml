[package]
name = "recipe_scale"
version = "0.1.0"
edition = "2021"
publish = false

[dependencies]
critical-section = "=1.2.0"
debouncr = "=0.2.2"
embedded-hal = "=0.2.7"
heapless = "=0.8.0"
nau7802 = "=0.1.0-alpha"
rotary-encoder-hal = "=0.6.0"
esp-alloc = "=0.11.0"
esp-backtrace = { version = "=0.20.0", features = ["esp32s3"] }
esp-hal = { version = "=1.2.2", features = ["esp32s3", "unstable"] }
esp-println = { version = "=0.18.0", features = ["esp32s3"] }
