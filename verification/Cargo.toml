[package]
name = "skelform_runtime"
version = "0.1.0"
edition = "2021"
publish = false

[dependencies]
macroquad = "=0.4.16"
rusty_skelform = "=0.4.4"
serde_json = "=1.0.151"
zip = "=8.6.0"
