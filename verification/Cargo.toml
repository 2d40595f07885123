[package]
name = "todo_list"
version = "0.1.0"
edition = "2021"
publish = false

[dependencies]
anyhow = "1"
csv = "1"
iced = { version = "0.13", default-features = false, features = ["tiny-skia"] }
log = "0.4"
log4rs = { version = "1", default-features = false, features = ["console_appender", "file_appender", "pattern_encoder", "threshold_filter"] }
