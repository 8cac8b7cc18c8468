[package]
name = "weather_db"
version = "0.1.0"
edition = "2021"
publish = false

[dependencies]
postgres = "0.19"
r2d2 = "0.8"
r2d2_postgres = "0.18"
