[package]
name = "hcrmi"
version = "0.1.0"
edition = "2021"
publish = false

[dependencies]
image = "=0.24.9"
jpeg-decoder = { version = "=0.3.2", features = ["platform_independent"] }
png = "=0.17.16"
rgb = "=0.8.53"
ravif = { version = "=0.8.9", default-features = false }
num_cpus = "=1.17.0"
tokio = { version = "1", features = ["full"] }
tokio-tar = "=0.3.1"
json = "=0.12.4"
lz4_flex = "=0.11.6"
simple-stopwatch = "*"
tesseract = "*"
