[package]
name = "rtl_parser"
version = "0.1.0"
edition = "2021"
publish = false

[dependencies]
proc-macro2 = { version = "=1.0.107", default-features = false }
syn = { version = "=2.0.119", default-features = false, features = ["parsing"] }
inkwell = { version = "=0.11.0", features = ["llvm14-0-force-dynamic"] }
tokio = { version = "=1.54.1", features = ["macros", "rt-multi-thread"] }
