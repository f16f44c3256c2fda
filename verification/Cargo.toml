[package]
name = "lcd_hw"
version = "0.1.0"
edition = "2021"
publish = false

[dependencies]
cortex-m = "0.7"
lcd = "0.4"
stm32f103xx = "0.11"
