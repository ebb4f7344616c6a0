[package]
name = "voter_stake_registry"
version = "0.1.0"
edition = "2021"
publish = false

[dependencies]
anchor-lang = { version = "=0.30.1", features = ["init-if-needed"] }
anchor-spl = { version = "=0.30.1", default-features = false, features = ["token", "associated_token", "mint"] }
bytemuck = "=1.25.2"
solana-program = "=1.18.26"
spl-governance = { version = "=4.0.0", features = ["no-entrypoint"] }
spl-governance-addin-api = "=0.1.4"
static_assertions = "=1.1.0"
