[package]
name = "ios"
version = "0.1.0"
edition = "2021"
publish = false

[dependencies]
chrono = "0.4"
dirs = "*"
dotenv = "0.15"
log = "0.4"
plist = "1"
rusqlite = "*"
threadpool = "1"
tqdm = "*"
