[package]
name = "cpcontrol"
version = "0.1.0"
edition = "2021"
publish = false

[dependencies]
heapless = "0.5"
ufmt = "0.1"
rtcc = "0.2"
chrono = { version = "0.4", default-features = false }
cortex-m = "0.6"
cortex-m-rtic = "0.5"
stm32f4xx-hal = { version = "0.8", features = ["stm32f405", "rt"] }
panic-halt = "0.2"
