# nft_indexer

An indexer of the events of an NFT marketplace on an Everscale-like chain,
written in Verus. The library (`src/`) holds the logic, each function with a
contract that Verus proves; `app/` is the program around it, which reads
transactions from Kafka, talks to Postgres and to the network, and asks the
library what to do.

## Layout

- `natural.rs`, `decimal.rs`: numbers of any size as decimal digits, and the
  safe rounding of decimals.
- `text.rs`, `address.rs`, `json.rs`, `placeholders.rs`: textual forms of
  numbers and addresses, JSON values and their lookups, and the `${NAME}`
  placeholders of configuration files.
- `scope.rs`, `abi.rs`, `settings.rs`: the events in scope, the ABIs of the
  contracts and the filtering of their events, the trusted offer roots and the
  Kafka options.
- `events.rs`, `chain_types.rs`, `records.rs`, `context.rs`, `decode.rs`,
  `batch.rs`, `collections_queue.rs`: the indexer path — events as unpacked,
  their decoding into records, the batching of a round by table with the order
  of the saves, and the cache of known collections.
- `tokens.rs`, `contract_events.rs`, `consumer.rs`, `dependent_tables.rs`,
  `tables.rs`: the consumer path — the tokens of extracted events, the record
  built for each event, the dispatch by contract, the plan of writes of each
  record, and the machine that carries a plan out in one transaction.
- `meta.rs`: what is taken from the metadata of NFTs and collections, and the
  decisions of the metadata reader.

The laws that the library keeps are proof functions next to the code they
speak of (their names start with `lemma_`).
