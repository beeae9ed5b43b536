[package]
name = "mlx9061x"
version = "0.1.0"
edition = "2021"
publish = false

[dependencies]
embedded-hal = "1.0"

[dev-dependencies]
smbus-pec = "1.0"
