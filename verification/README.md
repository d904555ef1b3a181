# linera_rpc

Verified conversions between a Linera validator node's domain values and the
messages of its gRPC protocol.

- `src/api.rs`: the protocol messages, as plain structs of bytes, integers
  and options.
- `src/domain.rs`: the domain values the node works with. The types of the
  payloads that the conversions only carry through (rounds, signature lists,
  message bundles, notification reasons, chain information, original
  proposals, account owners, keys and signatures, blob ids and contents)
  belong to other crates of the node, so these payloads are held as bytes
  and are not decoded in full. What is read of them is their head, in the
  order the node's decoder reads them: the chain id at the head of an
  encoded block, proposal or timeout; the variant index at the head of an
  encoded enum (a round, a notification reason, an original proposal); the
  length at the head of an encoded list (signatures, message bundles),
  which must not claim more elements than bytes remain; and
  block height ranges in full. A message whose payload is cut short is
  refused as the node refuses it, but one whose payload goes wrong after its
  head is accepted here where the node's full decoder refuses it; the
  contracts say exactly which checks are made.
- `src/codec.rs`: the byte formats the conversions read and write: little
  endian integers, block height ranges, the chain id at the head of an
  encoded value, secp256k1 keys and signatures. Validator keys and
  signatures are parsed with `k256`, the secp256k1 implementation the node's
  key types are built on.
- `src/convert/`: one function per direction for each message, each with a
  contract over spec functions `proto_*` (what a value is written as) and
  `parse_*` (what a message reads as, or which error it gives), and `law_*`
  proof functions stating that a value survives the trip through its message.
- `src/error.rs`: the conversion error, its kinds and its text.
- `app/lib.rs`: the error with `Display` (through `thiserror`) and its
  translation into a `tonic::Status`.

The tests under `tests/` exercise the conversions with the real `bincode`
and `k256` crates.
