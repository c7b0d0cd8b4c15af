[package]
name = "img2pdf"
version = "0.1.0"
edition = "2021"
publish = false

[dependencies]
url = "*"
serde_json = "*"
image = "*"
serde = { version = "*", features = ["derive"] }
clap = { version = "*", features = ["derive"] }
printpdf = "*"
reqwest = { version = "*", default-features = false }
tokio = { version = "*", features = ["macros", "rt-multi-thread"] }
