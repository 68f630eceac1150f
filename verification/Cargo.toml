[package]
name = "iceberg-datafusion-arrow-flight"
version = "0.1.0"
edition = "2021"
publish = false

[dependencies]
arrow = { version = "=51.0.0", default-features = false }
arrow-flight = { version = "=51.0.0", features = ["flight-sql-experimental"] }
arrow-schema = "=51.0.0"
base64 = "=0.22.1"
# Not used here: holds arrow-arith back from chrono 0.4.40 and later, whose `Datelike::quarter`
# makes its own `quarter` ambiguous.
chrono = { version = "=0.4.39", default-features = false }
dashmap = "=6.2.1"
datafusion = { version = "=38.0.0", default-features = false }
env_logger = { version = "0.11", default-features = false }
futures = "0.3"
log = "0.4"
mimalloc = { version = "0.1", default-features = false }
object_store = { version = "0.9", features = ["aws"] }
prost = "=0.12.6"
rcgen = "0.11"
reqwest = { version = "0.12", default-features = false }
reqwest-middleware = "0.3"
tokio = { version = "1", features = ["macros", "rt-multi-thread"] }
tonic = { version = "=0.11.0", features = ["tls"] }
uuid = { version = "=1.29.0", features = ["v4"] }
