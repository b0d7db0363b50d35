[package]
name = "voxio"
version = "0.2.3"
edition = "2021"
publish = false

[dependencies]
cpal = "=0.18.2"
crossbeam-channel = "=0.5.17"
rtrb = "=0.3.6"
rubato = "=3.0.0"
symphonia = { version = "=0.6.1", features = ["all"] }
symphonia-adapter-libopus = "*"
thiserror = "=2.0.21"
