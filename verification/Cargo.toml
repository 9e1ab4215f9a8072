[package]
name = "llvm_pm"
version = "0.1.0"
edition = "2021"
publish = false

[dependencies]
syn = { version = "=2.0.119", features = ["full"] }
quote = "=1.0.47"
proc-macro2 = "=1.0.107"
inkwell = { version = "=0.5.0", features = ["llvm14-0-prefer-dynamic"] }
llvm-plugin = { version = "0.6", features = ["llvm14-0"] }
