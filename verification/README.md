# zome_delivery

Private delivery of parcels between agents of a Holochain DNA: a sender
distributes an entry, or a manifest of chunks, to recipients; each recipient
gets a notice, accepts or refuses it, and receives the parcel by direct
message or from its inbox on the DHT.

- `src/` is the verified library: the data model (`types`, `entries`,
  `signals`), the validation rules (`validation`), the states of deliveries,
  distributions and notices (`state`), the searches through the source chain
  (`queries`, `chunks`), the direct message protocol and the sending and
  retrieval steps (`protocol`), the inbox (`inbox`, `links`), parcels
  (`parcel`) and the API seen by other zomes (`zome_api`). Every function has
  a contract, and the properties that span functions are proof functions
  (`lemma_*`).
- `tests/` runs the library on concrete values.
- `app/` is the zome on a conductor: host calls, serialization, encryption
  and signatures, around the library's decisions.
