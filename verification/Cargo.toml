[package]
name = "typst_pdf_api"
version = "0.1.0"
edition = "2021"
publish = false

[dependencies]
typst = "0.13"
typst-pdf = "0.13"
axum = { version = "0.8", features = ["macros"] }
tokio = { version = "1", features = ["macros", "net", "rt-multi-thread"] }
serde = { version = "1", features = ["derive"] }
thiserror = "2"
tracing = "0.1"
tracing-subscriber = "0.3"

[dev-dependencies]
typst-assets = { version = "0.13", features = ["fonts"] }
