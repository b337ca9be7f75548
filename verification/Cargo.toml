[package]
name = "noble"
version = "0.1.0"
edition = "2021"
publish = false

[dependencies]
syn = { version = "2", default-features = false, features = ["full", "parsing", "printing", "clone-impls"] }
quote = { version = "1", default-features = false }
proc-macro2 = { version = "1", default-features = false, features = ["span-locations"] }
