# da_node

A node of a small data-availability network: users upload blobs that are encrypted
with ElGamal under their own key, and nodes share the encrypted blobs with their peers.

`src/` is the verified library:

- `natural`, `prime_field`, `b64`, `text`, `errors`, `types`, `keypair`, `codec`, `elgamal`:
  ElGamal over the group of the BN254 base-field prime, the byte layout of encrypted
  blobs, and the proofs that decryption undoes encryption.
- `digest`, `ids`: content hashes and UUIDs.
- `p2p_config`, `sync_manager`, `blob_sync`, `replies`: the peer-to-peer side, that is
  the peer table, the queue of blobs to fetch, the checks on received blobs, and the
  answers to peers' requests.
- `accounts`, `blobs`, `api`, `loader`, `settings`, `exit`: the user API and the node's
  settings.

`app/` holds the program: configuration loading, the database, the gRPC and GraphQL
servers and the synchronisation loop, all calling into the library for their decisions.

The table of known peers (`sync_manager::PeerTable`) is a vector of `(peer id, address)`
pairs that never holds an id twice, viewed as a map from id to address. A
`std::collections::HashMap` keyed by `String` was considered: vstd specifies its
operations only for keys that obey its hash-table key model, which it grants to
integers and booleans but not to `String`, so no insertion or lookup on such a map could
be proved.
