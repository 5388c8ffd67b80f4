[package]
name = "genjudge"
version = "0.1.0"
edition = "2021"
publish = false

[dependencies]
mlua = { version = "=0.12.2", features = ["lua54", "vendored"] }
async-openai = { version = "=0.42.1", features = ["chat-completion"] }
tokio = { version = "=1.53.2", features = ["macros", "rt-multi-thread"] }
dotenv = "=0.15.0"
csv = "=1.4.0"
chrono = "=0.4.45"
inline_colorization = "=0.1.6"
