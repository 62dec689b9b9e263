[package]
name = "embassy-stm32f469i-disco"
version = "0.1.0"
edition = "2021"
publish = false

[dependencies]
embedded-graphics = "=0.8.2"
embedded-hal = "=1.0.0"
nt35510 = "=0.1.0"
otm8009a = "=0.1.0"
embedded-display-controller = "=0.2.0"
embassy-usb = "=0.6.0"
embassy-time = "=0.5.1"
embassy-futures = "=0.1.2"
nb = "=1.1.0"
cortex-m = "=0.7.10"
stm32-fmc = "=0.4.0"
embassy-stm32 = { version = "*", features = ["stm32f469ni"] }
stm32-metapac = { version = "*", features = ["stm32f469ni"] }
