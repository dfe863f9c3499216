# breez_nostr

A Nostr plugin for a Lightning wallet: it keeps its records in an encrypted plugin storage,
answers Nostr Wallet Connect (NIP-47) requests and publishes zap receipts (NIP-57).

- `src/` is the verified library (Verus). It holds the storage sealing and opening
  (`storage`, `cipher`, `hex_codec`), the plugin's configuration and payment data (`model`),
  its errors (`error`), its events and listeners (`event`), the NIP-47 decisions (`nwc`), the
  handling of one NIP-47 request step by step (`nwc_request`), NIP-47 encryption, connection
  URIs, editing, expiry and budget renewal of connections, and payment notifications
  (`nwc_wire`), the tracked zaps and receipt tags (`zaps`), safe record updates and key choice (`persist`), the
  running plugin's bookkeeping (`context`), and properties across operations (`laws`).
- `app/` is the asynchronous shell: the storage backend, the wallet and the relays are
  reached there, records and NIP-47 messages are read and written as JSON, and each step of
  a request that the library decides is carried out.
- `tests/` exercises the library on concrete values.
