# proxy_primary

Proxy primary consensus: a subset of the validators (the proxies) runs a fast
local consensus and forwards ordered proxy blocks to the full validator set
(the primaries), which aggregate them into primary blocks. A primary quorum
certificate attached to a proxy block "cuts" the proxy blocks of a primary
round.

## Layout

- `src/` — the library, verified with Verus. Every public function states
  what it returns or changes; the properties that span several calls are
  proof functions (`lemma_*`) next to the code they are about.
  - `types`, `hashing`: consensus values and their SHA3-256 domain-separated hashes
    (a proposal block is identified by the hash of its data).
  - `text`: decimal and hexadecimal rendering for error messages.
  - `primary_integration`: checking an ordered proxy blocks message and aggregating it.
  - `proxy_block_store`: the in-memory store of proxy blocks and certificates.
  - `proxy_leader_election`: round-robin leader rotation among the proxies.
  - `proxy_safety_rules`: the voting rules of proxy consensus.
  - `proxy_round_manager`: vote and order-vote aggregation, primary round tracking,
    and the decision to forward ordered blocks.
  - `proxy_proposal_generator`: the steps of building a proxy proposal.
  - `proxy_primary_test`, `proxy_suites`: the end-to-end test definitions, their
    metric checks and the forge suites.
- `tests/` — tests of the library.
- `app/` — the asynchronous side: the network and payload interfaces, the
  proposal driver (backpressure delay, clock, payload pull), the event loop,
  metrics and error display.

Signing and signature checks are done by the holder of the consensus key
around the library: the safety rules decide what may be signed.
