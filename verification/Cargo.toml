[package]
name = "chip-eight-debugger"
version = "0.1.0"
edition = "2021"
publish = false

[dependencies]
chip-eight = "=0.1.7"
iced = { version = "=0.14.0", default-features = false, features = ["tiny-skia", "x11", "image-without-codecs", "thread-pool"] }
surf = { version = "=2.3.2", default-features = false }
urlencoding = "=2.1.3"
