[package]
name = "todo_board"
version = "0.1.0"
edition = "2021"
publish = false

[dependencies]
directories = "5"
iced = { version = "0.13", default-features = false, features = ["tiny-skia", "tokio"] }
serde = { version = "1", features = ["derive"] }
sqlx = { version = "0.8", default-features = false, features = ["runtime-tokio", "sqlite"] }
tokio = { version = "1", features = ["fs"] }
toml = "0.5"
