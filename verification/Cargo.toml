[package]
name = "epaper_driver"
version = "0.1.0"
edition = "2021"
publish = false

[dependencies]
alloc-cortex-m = "*"
cortex-m = "*"
cortex-m-rt = "*"
embedded-graphics = "*"
embedded-hal = "*"
linux-embedded-hal = "*"
panic-semihosting = "*"
stm32f1xx-hal = { version = "*", features = ["stm32f103"] }

[dev-dependencies]
epd-waveshare = "*"
