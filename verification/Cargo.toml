[package]
name = "stm32f4_clock"
version = "0.1.0"
edition = "2021"
publish = false

[dependencies]
cortex-m = "*"
cortex-m-rt = "*"
cortex-m-semihosting = "*"
panic-semihosting = "*"
