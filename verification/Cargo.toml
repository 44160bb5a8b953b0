[package]
name = "rf_a"
version = "0.1.0"
edition = "2021"
publish = false

[dependencies]
aarch64-paging = "*"
arm-ffa = "*"
arm-fvp-base-pac = "*"
arm-gic = "*"
arm-pl011-uart = "*"
arm-psci = "*"
arm-sysregs = "*"
arrayvec = { version = "*", default-features = false }
bitflags = "*"
log = "*"
num_enum = { version = "*", default-features = false }
percore = "*"
spin = "*"
uuid = { version = "*", default-features = false }
zerocopy = { version = "*", features = ["derive"] }
