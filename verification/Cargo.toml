[package]
name = "select_chip"
version = "0.1.0"
edition = "2021"
publish = false

[dependencies]
alloy-primitives = "=1.7.3"
alloy-signer = "=2.5.0"
alloy-signer-local = "=2.5.0"
anyhow = "=1.0.104"
async-trait = "=0.1.92"
bincode = "=1.3.3"
log = "=0.4.34"
p3-air = "=0.1.0"
p3-baby-bear = "=0.1.0"
p3-field = "=0.1.0"
p3-matrix = "=0.1.0"
p3-maybe-rayon = { version = "=0.1.0", features = ["parallel"] }
prost = "=0.13.5"
reqwest = { version = "=0.12.28", default-features = false }
reqwest-middleware = "=0.4.2"
serde = { version = "=1.0.229", features = ["derive"] }
tokio = { version = "=1.54.1", features = ["time"] }
tonic = { version = "=0.12.3", default-features = false, features = ["channel", "codegen", "prost"] }

[dev-dependencies]
rand = "=0.8.8"
