[package]
name = "sysreport"
version = "0.1.0"
edition = "2021"
publish = false

[dependencies]
bytesize = "2"
chrono = "0.4"
colored = "*"
figlet-rs = "*"
local-ip-address = "*"
sysinfo = "*"
term_size = "*"
