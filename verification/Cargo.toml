[package]
name = "tracker_lib"
version = "0.1.0"
edition = "2021"
publish = false

[dependencies]
lava_torrent = "*"
ring = "*"
data-encoding = "*"
flate2 = "*"
scraper = "*"
magnet-url = "*"
byte-unit = "*"
diesel = { version = "*", features = ["sqlite", "returning_clauses_for_sqlite_3_35"] }
chrono = "*"
cron = "*"
dotenvy = "*"
thiserror = "*"
serde = { version = "*", features = ["derive"] }
serde_json = "*"
env_logger = "*"
actix-web = "*"
actix-files = "*"
