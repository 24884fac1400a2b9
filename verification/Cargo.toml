[package]
name = "tesla"
version = "0.2.0"
edition = "2021"
publish = false

[dependencies]
rand = "0.8"
sha2 = "0.9"
select = "0.5"
serde = { version = "1", features = ["derive"] }
serde_json = "1"
reqwest = { version = "0.11", features = ["json", "cookies"] }
tokio = { version = "1", features = ["macros", "rt-multi-thread"] }
clap = "2"
ctrlc = "3"
dirs = "3"
flexi_logger = "0.17"
log = "0.4"
rpassword = "5"
rumqttc = "*"
rusqlite = "*"
toml = "0.5"
