# linux-cec

A library for HDMI CEC, the protocol by which televisions and what is connected to them talk to each
other, and the decisions of a daemon built on it. The library is written in Rust and verified with
Verus.

- `src/message.rs`, `src/cdc.rs`, `src/operand/`: messages, and how they are laid out in bytes.
- `src/device.rs`, `src/status.rs`: frames for the kernel, and what is read out of those it hands out.
- `src/drm.rs`: connectors of graphics cards, and the physical address in an EDID.
- `src/config.rs`, `src/sources.rs`, `src/keys.rs`: the configuration of the daemon.
- `src/configure.rs`, `src/task.rs`, `src/wake.rs`, `src/lifecycle.rs`, `src/system.rs`: what the daemon
  does about devices, messages, sleep and wake. Each is a machine that says what has to be done next
  and is told what came of it.
- `src/dbus.rs`: what the daemon offers on the message bus.
- `src/attach.rs`: which serial adapters are bridged.
- `src/testing.rs`: a device in memory.
- `app/`: the programs, which do what the machines say.
