[package]
name = "commweb-tui"
version = "0.1.0"
edition = "2021"
publish = false

[dependencies]
select = "=0.6.1"
html5ever = "=0.26.0"
markup5ever_rcdom = "=0.2.0"
reqwest = { version = "=0.11.27", features = ["blocking"] }
crossterm = "=0.25.0"
tui = "=0.19.0"
serde_json = "=1.0.154"
thiserror = "=1.0.69"
