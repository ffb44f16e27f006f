[package]
name = "jj-starship"
version = "0.1.0"
edition = "2021"
rust-version = "1.95"
publish = false

[dependencies]
clap = { version = "=4.6.7", features = ["derive"] }
jj-lib = "=0.36.0"
# Not called from this crate. jj-lib reaches kstring 2 through gix-attributes,
# and kstring 2.0.5 asks for Rust 1.96, above the rust-version of this package.
# The line holds it at a release that builds with 1.95.
kstring = "=2.0.2"
