# cogniform

Verified building blocks of one local Cogniform agent session, written in
Verus.

`src/` is the library; every item in it is checked by Verus:

- `frame`, `codec`, `reader`, `bytes`, `digest`: the version-one local frame
  layout, its encoder and decoder, and a step-by-step frame reader.
- `limits`, `session`, `compilation`, `control`, `message`: receive limits,
  their negotiation, pre-decode control bounds, and session message roles.
- `executor`: the session ledger that decides every hello, admission,
  completion, observation, and close of one session.
- `gateway`, `query`: command admission with idempotency and supersession, and
  exact-revision query planning.
- `slots`, `observation`, `measurement`, `recovery`, `scenario`: observation
  permits, visibility counts, timing distributions, recovery envelopes, and the
  canonical scenario checks.
- `text`: decimal rendering and the exact human-readable message of every
  error of the library.

Decoding a frame checks its outer layer; an observation frame becomes a
`LocalFrame` only once its metadata is known to be canonical and its payload
envelope accepts that metadata, checks that belong to the observation schema
and are handed to `DecodedFrame::into_frame`. The scene values themselves
(patches with floating-point transforms and materials, queries, observation
payloads) and the world, renderer, and compiler that act on them are not part
of this library; the library sees each through the plain values its
decisions read.

`app/` holds the stream reads and writes, the monotonic clock, serialized
message forms, and the loop that drives a session ledger against a service.
`tests/` exercises the library on concrete values.
