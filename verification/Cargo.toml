[package]
name = "lvdt"
version = "0.1.0"
edition = "2021"
publish = false

[dependencies]
heapless = "=0.8.0"
libm = "=0.2.16"
embedded-graphics = "=0.8.2"
profont = "=0.7.0"
ssd1306 = "=0.9.0"
stm32g4xx-hal = { version = "=0.1.0", features = ["stm32g474", "cordic"] }
cortex-m = { version = "=0.7.10", features = ["critical-section-single-core"] }
rtic = { version = "=2.4.0", features = ["thumbv7-backend"] }
rtic-monotonics = { version = "=2.2.1", features = ["cortex-m-systick"] }
defmt = "=0.3.101"
defmt-rtt = "=0.4.2"
panic-probe = { version = "=0.3.2", features = ["print-defmt"] }
