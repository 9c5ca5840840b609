[package]
name = "magneporc"
version = "0.1.0"
edition = "2021"
publish = false

[dependencies]
heapless = "=0.8.0"
critical-section = "=1.2.0"
defmt = "=0.3.101"
ds323x = "=0.5.1"
embassy-executor = "=0.6.3"
embassy-futures = "=0.1.2"
embassy-net = { version = "=0.4.0", features = ["tcp", "dns", "dhcpv4", "proto-ipv4"] }
embassy-sync = "=0.6.2"
embassy-time = "=0.3.2"
embedded-graphics = "=0.8.2"
embedded-nal-async = "=0.7.1"
esp-backtrace = "=0.14.2"
esp-hal = "=0.22.0"
esp-hal-embassy = "=0.5.0"
esp-println = "=0.12.0"
esp-wifi = "=0.11.0"
rust-mqtt = "=0.3.1"
ssd1306 = "=0.9.0"
static_cell = "=2.1.1"
