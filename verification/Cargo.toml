[package]
name = "sap"
version = "0.1.0"
edition = "2021"
publish = false

[dependencies]
bytes = "=1.12.1"
color-eyre = "=0.6.5"
convert_case = "=0.12.0"
envfury = "=0.3.0"
file-format = { version = "=0.29.0", features = ["reader-txt"] }
html5ever = "=0.39.0"
http = "=1.5.0"
http-serde = "=2.1.1"
markup5ever_rcdom = "=0.39.0"
mr-mime = "=0.1.1"
serde = { version = "=1.0.229", features = ["derive"] }
serde_json = "=1.0.154"
serde_yaml = "=0.9.34"
strum = { version = "=0.28.0", features = ["derive"] }
thiserror = "=2.0.21"
tokio = { version = "=1.54.1", features = ["fs", "macros", "rt-multi-thread"] }
tracing = "=0.1.44"
tracing-subscriber = "=0.3.23"
xitca-web = "=0.7.1"
