[package]
name = "s2n_tls_config"
version = "0.1.0"
edition = "2021"
publish = false

[dependencies]
libc = "=0.2.191"
s2n-tls-sys = { version = "=0.3.45", features = ["internal", "quic", "unstable-custom_x509_extensions"] }
