[package]
name = "dendritic_ml_models"
version = "0.1.0"
edition = "2021"
publish = false

[dependencies]
dendritic = "=2.2.0"
ndarray = "=0.16.1"
polars = { version = "=0.55.2", default-features = false, features = ["parquet"] }
