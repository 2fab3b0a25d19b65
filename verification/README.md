# lab_presence

A verified library for a laboratory presence system: a hub keeps the presence
of each member and grants bearer tokens to devices; an NFC card reader looks up
the member whose card touches it and toggles their presence.

- `src/` holds the library, verified with Verus: presence records
  (`presence`), the member directory (`directory`), the wire messages
  (`messages`), a text-keyed map (`store`), JSON lookup of device secrets
  (`json`), token generation (`token`), bearer authentication (`auth`), the
  hub's request handling (`hub`), hexadecimal card identifiers (`hex`) and the
  card reader's decisions (`nfc`).
- `app/` holds the two programs around it: the HTTPS server (`hub`) and the
  card-reader loop (`nfc`), with the serializable copies of the messages.

The hub keeps its presence records and granted tokens in `store::TextMap`, a
map keyed by text and verified here, rather than in `std::collections::HashMap`:
vstd specifies `HashMap` only for key types that obey its key model, and it
gives `String` no such model, so nothing could be proved of a `HashMap` keyed
by user or token text.

The hub answers as the API description says: a device that the
allowed-devices document does not list is not found; a wrong secret is
refused; a token is `Bearer <token>` with one prefix and holds for the 3600
seconds it announces; a presence change of a user without a record is not
found; unauthenticated reads and changes get their documented refusals. New
members get a record (`offline`, time 0) from the member directory when the hub
starts.
