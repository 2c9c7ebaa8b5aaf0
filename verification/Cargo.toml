[package]
name = "virtio_fs"
version = "0.1.0"
edition = "2021"
publish = false

[dependencies]
anyhow = "=1.0.104"
epoll = "=4.4.0"
libc = "=0.2.191"
log = "=0.4.35"
mshv-ioctls = "=0.7.1"
seccompiler = "=0.5.0"
serde = { version = "=1.0.229", features = ["derive"] }
serde_with = "=3.24.0"
thiserror = "=2.0.21"
vhost-user-backend = "=0.22.0"
virtio-queue = "=0.17.0"
virtiofsd = { version = "=1.14.0", default-features = false }
vm-memory = { version = "=0.17.1", features = ["backend-mmap", "backend-atomic", "backend-bitmap"] }
vmm-sys-util = "=0.15.0"
