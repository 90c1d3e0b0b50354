[package]
name = "collect_failable"
version = "0.1.0"
edition = "2021"
publish = false

[dependencies]
size_hinter = "*"
arrayvec = "*"
hashbrown = "*"
indexmap = "*"
either = "*"
thiserror = "*"
derive_more = { version = "*", features = ["full"] }
fluent_result = "*"
tap = "*"
no_drop = "*"
sealed = "*"
subdef = "*"
display_as_debug = "*"
nameof = "*"
