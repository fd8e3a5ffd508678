[package]
name = "nrf_spm_rs"
version = "0.1.0"
edition = "2021"
publish = false

[dependencies]
cortex-m = "*"
cortex-m-rt = "*"
defmt = "*"
defmt-rtt = "*"
nrf9160-pac = "*"
panic-probe = "*"
