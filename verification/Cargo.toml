[package]
name = "distant_nvim"
version = "0.1.0"
edition = "2021"
publish = false

[dependencies]
distant-core = "0.15"
distant-ssh2 = "0.15"
mlua = { version = "0.6", features = ["async", "macros", "module", "serialize", "lua51", "vendored"] }
once_cell = "1"
oorandom = "11"
paste = "1"
serde = { version = "1", features = ["derive"] }
tokio = { version = "1", features = ["macros", "time", "rt-multi-thread"] }
whoami = "1"
