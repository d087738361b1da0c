[package]
name = "forge-storage"
version = "0.1.0"
edition = "2021"
publish = false

[dependencies]
sha2 = "0.10"
zeroize = "1"
uuid = { version = "1", features = ["v7", "serde"] }
serde = { version = "1", features = ["derive"] }
serde_json = "1"
time = "0.3"
thiserror = "2"
tokio = { version = "1", features = ["rt", "time", "macros"] }
sqlx = { version = "0.8", default-features = false, features = ["postgres", "runtime-tokio", "uuid", "time", "json", "migrate"] }
object_store = { version = "*", features = ["aws"] }
nix = { version = "*", features = ["user", "fs"] }
anyhow = "1"
clap = { version = "4", features = ["derive"] }
