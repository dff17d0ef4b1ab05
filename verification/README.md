# kvm

A verified model of the KVM VMI (virtual machine introspection) bindings.

`src/` is the library, checked by Verus:

- `uapi` and `arch::{x86, arm64}::sys` hold the kvm_vmi uAPI constants and
  records as plain values;
- `arch::x86` and `arch::arm64` decode ring slots into native events, convert
  register snapshots, build monitor-control and event-injection requests, and
  flatten the full vCPU register context;
- `event` holds the arch-neutral event envelope and composes the response
  flag word;
- `ring` holds a vCPU's event ring (header, slots, consumer cursor) and the
  peek/respond/advance steps;
- `access`, `attach`, `memory` and `common` hold the access mask, the fd
  classification and ordering of attach, the mmap offset of a host frame and
  the ioctl return check.

`app/` is the OS side: the ioctls, mmaps, eventfds and `/proc` walks, calling
the library for every decision.
