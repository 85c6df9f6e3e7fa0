[package]
name = "vortex_rows"
version = "0.1.0"
edition = "2021"
publish = false

[dependencies]
anyhow = "1"
arrow-array = "*"
arrow-schema = "*"
arrow-select = "*"
async-trait = "0.1"
axum = { version = "0.8", default-features = false, features = ["http1", "tokio"] }
clap = { version = "4", features = ["derive"] }
futures = "0.3"
glob = "0.3"
half = "2"
itertools = "0.14"
jemalloc_pprof = "*"
object_store = "*"
parking_lot = "0.12"
parquet = { version = "*", default-features = false, features = ["arrow", "async", "object_store"] }
prost = "0.14"
regex = "1"
reqwest = { version = "*", default-features = false, features = ["stream"] }
serde = { version = "1", features = ["derive"] }
tokio = { version = "1", features = ["fs", "io-util", "macros", "net", "process", "rt-multi-thread"] }
tracing = "0.1"
url = "2"
uuid = { version = "1", features = ["v4"] }
