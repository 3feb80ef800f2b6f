[package]
name = "clockwork-orange"
version = "0.1.0"
edition = "2021"
publish = false

[dependencies]
async-trait = "=0.1.92"
axum = "=0.6.20"
bincode = "=1.3.3"
color-eyre = "=0.6.5"
dptree = "=0.3.0"
envy = "=0.4.2"
indoc = "=2.0.8"
log = "=0.4.34"
once_cell = "=1.21.4"
pulldown-cmark = { version = "=0.9.6", default-features = false }
pulldown-cmark-to-cmark = "=10.0.4"
rand = "=0.8.8"
redis = { version = "=0.23.5", features = ["tokio-comp"] }
regex = "=1.13.1"
serde = { version = "=1.0.229", features = ["derive"] }
takecell = "=0.1.1"
teloxide = { version = "=0.12.2", features = ["macros", "webhooks-axum"] }
time = { version = "=0.3.55", features = ["serde"] }
tokio = { version = "=1.54.1", features = ["full"] }
tracing = "=0.1.44"
tracing-subscriber = { version = "=0.3.23", features = ["env-filter"] }
tracing-tree = "=0.2.5"
