[package]
name = "vsched"
version = "0.1.0"
edition = "2021"
publish = false

[dependencies]
bytemuck = { version = "1", features = ["extern_crate_alloc"] }
cpumask = "=0.1.0"
hashbrown = "=0.17.1"
spin = "0.10"
starry-process = "0.2"
timer_list = "=0.1.0"
xmas-elf = "=0.10.0"

[dev-dependencies]
linux-raw-sys = "0.11"
page_table_entry = "0.5"
starry-signal = "0.3"
