[package]
name = "mcu_hal"
version = "0.1.0"
edition = "2021"
publish = false

[dependencies]
cortex-m = "*"
cortex-m-rt = "*"
emballoc = "*"
panic-halt = "*"
stm32g4 = { version = "*", features = ["stm32g431"] }
stm32h5 = { version = "*", features = ["stm32h562"] }
