[package]
name = "somebotty"
version = "0.1.0"
edition = "2021"
publish = false

[dependencies]
anyhow = "=1.0.104"
async-trait = "=0.1.92"
bincode = "=1.3.3"
bobascript = "=0.1.4"
chrono = "=0.4.45"
config = "=0.11.0"
if_chain = "=1.0.3"
lalrpop-util = { version = "=0.19.12", features = ["lexer"] }
notify = "=4.0.18"
once_cell = "=1.21.4"
reqwest = { version = "=0.11.27", features = ["json"] }
serde = { version = "=1.0.229", features = ["derive"] }
sled = "=0.34.7"
tiny_http = "=0.12.0"
tokio = { version = "=1.54.1", features = ["full"] }
twitch-irc = { version = "=3.0.1", features = ["refreshing-token"] }
