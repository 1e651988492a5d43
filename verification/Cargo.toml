[package]
name = "lifecycle"
version = "0.1.0"
edition = "2021"
publish = false

[dependencies]
atty = "0.2"
exitcode = "1.1"
futures = "0.3"
num_cpus = "1"
openssl-probe = "0.1"
tokio = { version = "0.2", features = ["macros", "rt-threaded", "stream", "sync"] }
