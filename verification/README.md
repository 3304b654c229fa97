# tun

A TUN device library whose logic is verified with Verus.

- `src/` is the verified library: the packet information header and the
  IP version of a packet (`codec`), address arithmetic (`netmask2prefix`,
  `startip_from_cidr`), the per-flow offload table and the coalescing
  rules (`platform::linux::offload`), the virtio-net header, socket address
  layouts (`platform::posix::sockaddr`), the reader and writer halves of a
  descriptor with their framing (`platform::posix::split`) and the device's
  decisions around interface requests (`platform::bsd::device`).
  Calls into `bytes` and the constants of `libc` go through the small
  trusted items in `buffers` and `sys`.
- `app/` is the system side: opening the device, `ioctl`, `read` and
  `write` on descriptors, the `tokio_util` codec traits, and conversions
  from `etherparse` headers and the standard library's address types.
- `tests/` exercises the library on concrete values.
