[package]
name = "spire_codegen"
version = "0.1.0"
edition = "2021"
publish = false

[dependencies]
heck = "=0.5.0"
serde = { version = "=1.0.229", features = ["derive"] }
serde_json = "=1.0.154"
glob = "=0.3.4"
tokio = { version = "=1.54.1", features = ["full"] }
thiserror = "=1.0.69"
prost-build = "=0.13.5"
protox = "=0.7.2"
diesel = { version = "=2.2.12", default-features = false, features = ["postgres_backend"] }
diesel-async = { version = "=0.6.1", features = ["postgres", "deadpool"] }
