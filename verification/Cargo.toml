[package]
name = "tpchgen_cli"
version = "0.1.0"
edition = "2021"
publish = false

[dependencies]
arrow = "=59.3.0"
clap = { version = "=4.6.7", features = ["derive"] }
env_logger = "=0.11.11"
log = "=0.4.34"
num_cpus = "=1.17.0"
parquet = "=59.3.0"
tokio = { version = "=1.53.2", features = ["rt-multi-thread", "macros"] }
tpchgen = "=3.0.0"
tpchgen-arrow = "=3.0.0"
