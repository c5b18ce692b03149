[package]
name = "cloude_vmm"
version = "0.1.0"
edition = "2021"
publish = false

[dependencies]
event-manager = "=0.4.2"
futures-util = "=0.3.34"
initramfs-builder = "*"
kvm-bindings = "=0.14.1"
kvm-ioctls = "=0.25.0"
libc = "=0.2.190"
linux-loader = { version = "=0.14.0", features = ["bzimage", "elf"] }
nftables = "=0.6.3"
rtnetlink = "=0.23.0"
serde = { version = "=1.0.229", features = ["derive"] }
serde_json = "=1.0.151"
tokio = { version = "=1.53.2", features = ["fs", "io-util", "macros", "process", "rt-multi-thread", "time"] }
virtio-queue = "=0.18.0"
vm-allocator = "=0.1.4"
vm-device = "=0.1.0"
vm-memory = { version = "=0.18.0", features = ["backend-mmap"] }
vmm-sys-util = "=0.15.0"
