[package]
name = "hello_stm32"
version = "0.1.0"
edition = "2021"
publish = false

[dependencies]
bxcan = "=0.7.0"
postcard = "=1.1.3"
serde = { version = "=1.0.229", default-features = false, features = ["derive"] }
cortex-m = "=0.7.7"
cortex-m-rt = "=0.7.7"
rtt-target = { version = "=0.3.1", features = ["cortex-m"] }
panic-halt = "=0.2.0"
stm32f4xx-hal = { version = "0.15", features = ["stm32f401"] }
stm32f3xx-hal = { version = "0.10", features = ["stm32f303xc", "can"] }
