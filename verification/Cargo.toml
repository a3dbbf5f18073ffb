[package]
name = "tunebot"
version = "0.1.0"
edition = "2021"
publish = false

[dependencies]
songbird = { version = "=0.5.0", features = ["builtin-queue"] }
symphonia-core = "=0.5.5"
poise = "=0.6.2"
serenity = { version = "=0.12.5", default-features = false }
reqwest = { version = "=0.12.28", default-features = false, features = ["json"] }
tokio = { version = "=1.54.1", features = ["macros", "rt-multi-thread"] }
tracing = "=0.1.44"
tracing-subscriber = { version = "=0.3.23", default-features = false, features = ["fmt"] }
anyhow = "=1.0.104"
async-trait = "=0.1.92"
serde = { version = "=1.0.229", features = ["derive"] }
