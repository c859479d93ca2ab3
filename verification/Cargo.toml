[package]
name = "rude_honker"
version = "0.1.0"
edition = "2021"
publish = false

[dependencies]
embassy-executor = "0.7"
embassy-time = "0.4"
esp-alloc = "0.8"
esp-bootloader-esp-idf = "0.2"
esp-hal = "=1.0.0-rc.0"
esp-hal-embassy = "=0.9.0"
esp-println = "0.15"
esp-wifi = "=0.15.0"
nb = "1"
static_cell = "2"
tb6612fng = "1"
