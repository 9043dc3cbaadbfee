[package]
name = "pds"
version = "0.1.0"
edition = "2021"
publish = false

[dependencies]
display-interface-i2c = "*"
embassy-executor = "*"
embassy-futures = "*"
embassy-sync = "*"
embassy-time = "*"
embedded-graphics = "*"
esp-alloc = "*"
esp-bootloader-esp-idf = "*"
esp-hal = { version = "*", features = ["esp32c3", "unstable"] }
esp-radio = "*"
esp-rtos = "*"
log = "*"
oled_async = "*"
panic-rtt-target = "*"
rtt-target = "*"
tinybmp = "*"
tinygif = "*"
