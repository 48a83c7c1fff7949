[package]
name = "hltvapi"
version = "0.1.0"
edition = "2021"
publish = false

[dependencies]
scraper = "=0.29.0"
chrono = { version = "=0.4.45", features = ["serde"] }
uuid = { version = "=1.29.1", features = ["v4"] }
icalendar = "=0.17.17"
rss = "=2.1.2"
mime = "=0.3.17"
mime_guess = "=2.0.5"
actix-web = "=4.18.1"
actix-files = "=0.7.3"
diesel = { version = "=1.4.8", features = ["sqlite", "r2d2", "chrono"] }
diesel_migrations = "=1.4.0"
r2d2 = "=0.8.10"
tera = { version = "=1.20.1", default-features = false }
include_dir = "=0.6.2"
lazy_static = "=1.5.1"
itconfig = "=1.1.1"
dotenv = "=0.15.0"
clokwerk = "=0.4.0"
tokio = { version = "=1.54.1", features = ["rt", "macros", "time"] }
tracing = "=0.1.44"
tracing-actix-web = "=0.7.25"
tracing-bunyan-formatter = "=0.3.11"
tracing-log = "=0.2.0"
tracing-subscriber = { version = "=0.3.23", features = ["env-filter", "registry"] }
openssl-probe = "=0.2.2"
reqwest = { version = "=0.12.28", default-features = false, features = ["rustls-tls", "blocking"] }
rand = "=0.10.3"
serde = { version = "=1.0.229", features = ["derive"] }
