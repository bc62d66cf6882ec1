[package]
name = "runtime_ble"
version = "0.1.0"
edition = "2021"
publish = false

[dependencies]
trouble-host = { version = "=0.8.0", features = ["scan", "security", "default-packet-pool-mtu-251"] }
bt-hci = { version = "=0.10.1", features = ["uuid"] }
heapless = "=0.9.3"
critical-section = "=1.2.0"
embassy-futures = "=0.1.2"
embassy-sync = "=0.8.0"
embassy-time = { version = "=0.5.1", features = ["tick-hz-1_000"] }
embassy-time-driver = "=0.2.2"
embassy-time-queue-utils = "=0.3.2"
nrf-sdc = "*"
embassy-nrf = "*"
