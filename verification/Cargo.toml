[package]
name = "basic_filter"
version = "0.1.0"
edition = "2021"
publish = false

[dependencies]
num = "*"
real_time_fir_iir_filters = "*"
serde = { version = "*", features = ["derive"] }
serde_json = "*"
vst = "*"
