[package]
name = "my_blog_os"
version = "0.1.0"
edition = "2021"
publish = false

[dependencies]
pc-keyboard = "0.5"
pic8259 = { version = "0.10", default-features = false }
x86_64 = { version = "0.14", default-features = false, features = ["instructions"] }
spin = "0.5"
volatile = "0.2"
lazy_static = { version = "1", features = ["spin_no_std"] }
