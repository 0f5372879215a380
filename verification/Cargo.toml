[package]
name = "recipe_p2p"
version = "0.1.0"
edition = "2021"
publish = false

[dependencies]
serde_json = "1"
libp2p = { version = "0.41", default-features = false, features = ["floodsub", "mdns", "mplex", "noise", "tcp-tokio"] }
tokio = { version = "1", features = ["fs", "io-std", "io-util", "macros", "rt", "rt-multi-thread", "sync"] }
log = "0.4"
pretty_env_logger = "0.4"
