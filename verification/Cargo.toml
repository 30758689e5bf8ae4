[package]
name = "formulatrix_uploader"
version = "0.1.0"
edition = "2021"
publish = false

[dependencies]
anyhow = "*"
dotenvy = "*"
elementtree = "*"
envy = "*"
glob = "*"
image = "*"
log = "*"
mysql = { version = "*", default-features = false }
rayon = "*"
serde = { version = "*", features = ["derive"] }
serde_json = "*"
