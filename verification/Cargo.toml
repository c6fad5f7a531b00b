[package]
name = "bae"
version = "0.1.0"
edition = "2021"
publish = false

[dependencies]
chrono = "*"
clap = { version = "*", features = ["derive"] }
console = "*"
pulldown-cmark = "*"
serde = { version = "*", features = ["derive"] }
serde_json = "*"
similar = { version = "*", features = ["inline"] }
sqlx = { version = "*", default-features = false, features = ["postgres", "runtime-tokio", "chrono", "derive"] }
tokio = { version = "*", features = ["rt-multi-thread", "macros"] }
tree-sitter = "*"
tree-sitter-cpp = "*"
tree-sitter-highlight = "*"
tree-sitter-javascript = "*"
tree-sitter-python = "*"
tree-sitter-rust = "*"
