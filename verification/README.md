# tun_playground

A small layer-3 tunnel: each packet read from a TUN device travels in one UDP
datagram, wrapped in a capsule (its length as a little-endian `u64`, then its
bytes, as bincode writes a one-field struct). Also: echo servers over TCP, UDP
and QUIC, and a QUIC client/server demo.

- `src/` is the verified library (Verus): the address model, the capsule and its
  round-trip laws, the relay decisions of both tunnel ends and the tunnel laws,
  the echo decisions of the servers, the device settings and the command-line
  model.
- `app/` is the program around it: argument parsing with clap, sockets, TUN and
  TAP devices, the QUIC backends and the async loops that perform what the
  library decides.
- `tests/` runs the library on concrete values.
