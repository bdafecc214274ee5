[package]
name = "embassy_sifive"
version = "0.1.0"
edition = "2021"
publish = false

[dependencies]
critical-section = "=1.2.0"
e310x = "=0.12.0"
embassy-sync = "=0.8.0"
embassy-time-driver = "=0.1.0"
embedded-hal = "=1.0.0"
embedded-hal-nb = "=1.0.0"
hifive1 = { version = "=0.13.0", features = ["board-hifive1-revb"] }
nb = "=1.1.0"
portable-atomic = "=1.15.0"
riscv = "=0.16.1"
riscv-rt = "=0.13.0"
