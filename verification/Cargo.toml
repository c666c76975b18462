[package]
name = "flup"
version = "0.1.0"
edition = "2021"
publish = false

[dependencies]
rust-crypto = "=0.2.36"
rustc-serialize = "=0.3.25"
mime_guess = "=1.8.8"
iron = "0.5"
router = "0.5"
mount = "0.3"
params = "0.6"
handlebars-iron = "0.25"
staticfile = "0.4"
toml = "=0.1.30"
redis = "=0.5.4"
r2d2 = "=0.7.4"
r2d2_redis = "=0.3.1"
