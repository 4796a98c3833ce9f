# bigworlds

`bigworlds` is a framework for assembling and running large, distributed,
entity-based simulation models. This crate holds its core with proofs: the
library under `src/` is written in Verus, and each public function states in
its contract what it does.

## Layout

- `src/model/`: model definitions and their assembly from manifests. Module,
  scenario and project manifests are read from their deserialized forms;
  models are merged and extracted from projects scenario by scenario; the
  files of a project archive are listed from its tar entries.
- `src/machine/`: the machine command layer: locations, command prototypes,
  the block search over command lists, and the commands themselves.
- `src/entity/`: entities built from prefabs, and their storage keyed by
  component and variable name.
- `src/query.rs`: the query description language and the combination of
  query products.
- `src/leader.rs`, `src/worker.rs`, `src/server.rs`: the request handling of
  the cluster roles, as functions from state and request to the next state
  and the answer, or to the outside work the request needs; a worker's
  network requests are planned as the steps that answer them.
- `src/part.rs`: a simulation node, stepped one clock tick at a time.
- `src/interactive.rs`: the decisions of the interactive command line.
- `src/map.rs`, `src/text.rs`: a map kept as a vector of entries with
  distinct keys, and character-level text helpers.
- `tests/`: tests of the library.
- `app/`: the command line program, which reads project files and runs a
  scenario interactively on a worker held in the process.

Laws that relate several operations stand as public proof functions beside
the operations, such as `leader::lemma_set_then_get_model` or
`worker::lemma_set_then_get_var`.
