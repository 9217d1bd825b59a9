[package]
name = "biodex"
version = "0.1.0"
edition = "2021"
publish = false

[dependencies]
solana-program = "=2.3.0"
borsh = "=1.8.1"
spl-token = "=9.0.0"
spl-associated-token-account = "=8.0.0"
mpl-token-metadata = "=5.1.1"
clap = { version = "=4.6.7", features = ["derive"] }
dotenv = "=0.15.0"
log = "=0.4.34"
log4rs = "=1.4.0"
