[package]
name = "claim_graph"
version = "0.1.0"
edition = "2021"
publish = false

[dependencies]
leptos = "0.6"
web-sys = { version = "0.3", features = ["DomRect", "Element", "HtmlDivElement", "Node", "Window"] }
gloo-render = "0.2"
console_log = "1"
log = "0.4"
serde = { version = "1", features = ["derive"] }
serde_json = "1"
