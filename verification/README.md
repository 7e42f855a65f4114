# muzanci_transport

The transport between a MuzanCI runner or command line client and the server: many channels over one
connection. A mux on each side opens and closes channels on request, hands messages to the channels
they belong to, and shuts down in an orderly way.

`src/` is the verified library. It decides; it performs no I/O.

- `ident`, `text`, `big_endian`, `buffer`: identifiers, texts, numbers and byte buffers.
- `message`, `job`, `pipeline`, `worker`: what is exchanged.
- `codec`, `codec_laws`: frames as bytes, and what holds of them.
- `channel`: channel types and the two ends of a channel.
- `mux`: the mux as a state machine, whose handlers return what is to be done.
- `model`: the mathematical model that the contracts of `mux` speak of.
- `laws`: what holds of one mux over all inputs.
- `peers`: what two muxes know of their channels, with the frames on their way between them.
- `peer_data`: the messages that go from one mux to the other.

`app/` runs the library with tokio: it serializes messages, moves frames and commands through queues,
and performs what the mux decides. `tests/` runs the library on concrete values.

Trusted are the declarations of outside types (`uuid::Error`, `bytes::BytesMut`, `postcard::Error`,
`std::io::Error`, `url::Url`, `std::path::PathBuf`), the wrappers in `ident` that call `uuid`, and, in
`buffer`, the name `contents` for what a buffer holds and the wrappers that call `bytes`.
