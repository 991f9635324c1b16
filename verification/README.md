# cups_client

An IPP client for CUPS and for printers, and a client for the `cups-pk-helper`
mechanism, written in Verus: what is asked, what the answers mean and what
follows from them is stated in contracts and proved.

- `src/` is the library. It builds every request, decodes every reply, compares
  one view of the print system with the next, and decides what to do after each
  step. It sends nothing and reads no file or clock.
- `app/` sends the requests over HTTP, calls the mechanism over D-Bus, reads
  `lpoptions` and documents, and waits.
- `tests/` runs the library with the crates it is built on.

## Where to look

| What | Where |
|---|---|
| IPP messages, and what is believed of the `ipp` crate | `wire.rs`, `operations.rs`, `transport.rs` |
| Requests | `requests.rs`, `handle.rs` |
| Replies | `replies.rs`, `attrs.rs`, `printer.rs`, `job.rs`, `subscription.rs` |
| Changes between two readings, and following them | `events.rs`, `replay.rs`, `poll.rs` |
| Submitting a streamed document | `submission.rs` |
| The default printer | `lpoptions.rs`, `default_printer.rs` |
| `cups-pk-helper` | `mechanism.rs`, `device.rs` |

## What is proved beyond each function's contract

- A consumer that is told the events between two readings knows the second
  (`replay.rs`, `poll.rs`).
- The decoders read nothing but the attributes the requests ask for
  (`agreement.rs`).
- A group that cannot be read loses nothing but itself (`subscription.rs`).
- A job whose document is not accepted is taken back out, and the failure that
  is reported is the document's (`submission.rs`).
- Discovered devices come in the order of their indexes, each with a URI,
  whatever order the reply lists them in (`device.rs`).

Strings are modelled as sequences of characters, and their lengths are counted
in bytes where IPP counts them so. Times and durations are nanoseconds.
