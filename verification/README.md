# framed_serial

A verified library for framed serial links, with the SLCAN (serial line CAN)
protocol as its codec.

- `src/slcan/` — SLCAN frames (`SlCanFrame`), received messages
  (`SlCanMessage`), their errors, and the codec that turns a byte buffer into
  messages and frames into bytes. The codec's contracts are stated over the
  bytes a `bytes::BytesMut` holds and over the UTF-8 model of `vstd`.
- `src/buffer.rs` — the trusted boundary to `bytes::BytesMut`.
- `src/link.rs` — what the read task of a link does with each item.
- `src/util.rs` — choosing a USB serial port by vendor id, product id and
  interface.
- `tests/` — tests on concrete values.
- `app/` — the asynchronous link (`FramedSerial`) on tokio, the
  `tokio_util` codec traits, and the listing of the system's serial ports.

## Frames from text

`SlCanFrame::try_create` takes a `&str`. It requires the text's first
character to be one byte wide, because the frame check reads the text's
first byte as a string of its own; a wider first character is refused by
the contract rather than given a made-up result.

For the same reason there is no `TryFrom<&str>` for `SlCanFrame`: a trait
method cannot carry that `requires`, and outside this crate the orphan rule
forbids adding the impl. Text becomes a frame before it is sent:

```rust
let frame = framed_serial::slcan::SlCanFrame::try_create("t123411223344")?;
let reply = link.send(frame).await?;
```

In `app/`, `slcan::frame_from_str` does the same with the `thiserror` error
type, and panics on a wide first character as the frame check would.

## Targets

The encoder is stated for 64-bit targets and for buffers under
`isize::MAX / 2` bytes: growing a `BytesMut` past that can panic depending on
where its bytes sit in the allocation. `app/` does not build elsewhere.
