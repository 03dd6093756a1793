[package]
name = "button_latch"
version = "0.1.0"
edition = "2021"
publish = false

[dependencies]
smart-leds = "=0.4.0"
embassy-futures = "=0.1.2"
embassy-sync = "=0.8.0"
embassy-time = "=0.5.1"
embassy-executor = "=0.10.0"
static_cell = "=2.1.1"
defmt = "=1.2.0"
esp-hal = { version = "=1.2.2", features = ["esp32c3", "unstable"] }
esp-rtos = "=0.4.0"
esp-println = "=0.18.0"
esp-backtrace = "=0.20.0"
esp-bootloader-esp-idf = "=0.6.0"
esp-hal-smartled = "*"
shtcx = "*"
embedded-io = "*"
icm42670 = "*"
