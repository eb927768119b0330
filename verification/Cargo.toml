[package]
name = "hyped_boards_stm32f767zi"
version = "0.1.0"
edition = "2021"
publish = false

[dependencies]
dvida_serialize = "*"
heapless = "*"
embassy-sync = "*"
embassy-time = "*"
embassy-futures = "*"
