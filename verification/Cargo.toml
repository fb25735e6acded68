[package]
name = "usnake"
version = "0.1.0"
edition = "2021"
publish = false

[dependencies]
heapless = "=0.5.6"
wyhash = "=0.6.0"
max7219 = "=0.2.2"
nb = "=1.1.0"
cortex-m = "=0.7.10"
cortex-m-rt = "=0.7.7"
panic-itm = "0.4"
stm32f3xx-hal = { version = "=0.10.0", default-features = false, features = ["stm32f303xc", "rt"] }
