# rustus

A front end for the Scalus compiler of Cardano smart contracts: Rust
functions and data types become SIR, Scalus' intermediate representation,
which the Scalus backend on the JVM compiles to UPLC.

The library in `src/` is written in Verus and verified:

- `sir`, `sir_type`, `module`, `constant`, `default_fun`: the SIR terms,
  types, data declarations and modules, with their models in `model`.
- `pre_sir`, `lower`: the pre-SIR that the front end emits and its lowering
  to SIR, which resolves variable, call and field types, picks equality
  builtins by operand type and passes typeclass instances.
- `registry`: the resolution context that collects declarations, function
  signatures and bindings, and finishes a module.
- `renumber`, `typing`: numbering of type parameters and the typing pass,
  with the check that no unresolved type remains.
- `data`, `encode`, `bytestring`, `integer`: Plutus Data, how values are
  written as Data and read back from it, with the law that what is written
  reads back.
- `list`, `option`, `pair`, `order`, `assoc_map`, `sorted_map`, `ledger`:
  the on-chain prelude and the Plutus ledger API types.
- `front`, `compile`, `body`, `compile_laws`: the `#[compile]` front end
  on a syntax tree of the function (renaming of variables, type hints,
  registration), the model of its translation to pre-SIR, the translation
  itself, proved to compute what the model gives, and what every step of
  it keeps.
- `derive`, `derive_impl`, `layout`, `attrs`, `sir_types`: what `#[derive(ToData,
  FromData)]` decides (data declarations, how a type is laid out in Data,
  which equality it uses), the options of the attribute macros, and the
  SIR types and data declarations of the prelude types.
- `builtins`: the UPLC builtins, run off chain.
- `jvm`: the errors and evaluation results of the backend.
- `laws`: properties that relate several operations.

`app/` holds what talks to the world: the entries that the procedural macros
register at link time (and those of the prelude and ledger types), the JSON
wire format, and the JNI calls into Scalus.
