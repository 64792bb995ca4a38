[package]
name = "esp_hal_qspi"
version = "0.1.0"
edition = "2021"
publish = false

[dependencies]
display-driver-qspi = "*"
defmt = "1"
esp-hal = { version = "~1.1", features = ["esp32s3", "unstable"] }
