[package]
name = "sdio_sdhc"
version = "0.1.0"
edition = "2021"
publish = false

[dependencies]
block_device = "*"
cortex-m = "*"
stm32f4xx-hal = { version = "*", features = ["stm32f407"] }
