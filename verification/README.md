# dijavu

A minimal, type-safe dependency injection system with a clear split between an
_initialization_ phase, in which a mutable container is set up step by step, and a _runtime_
phase, in which an immutable, cheaply copyable handle gives access to the finished application
state.

## Layout

- `src/` is the verified library. It holds the containers (`Data` and its entries), the state
  machines of the initialization and build phases (`InitInjector`, `InjectorBuilder`), the
  runtime handles (`Injector`, `AppContainer`, `ScopeContainer`), the initializables, the error
  type, and the decisions behind the derives (accepted attributes, generated names and
  messages). The laws of the phases (an initialization starts once unless it failed, every
  initialized injectable is built) are proof functions. The typed accessors of `Data` and the
  contents of slots are left out of the contracts: which entry belongs to a key type, and what a
  shared write-once cell holds, are not part of the model.
- `app/` holds what awaits or generates code: the `Injectable`, `Initializable`,
  `NewInitValue` and `OnStart` traits, the asynchronous drivers that run each phase by asking
  the library what to do next, the process-wide before-build hooks, and the code generators of
  `#[derive(Injectable)]` and `#[derive(Initializable)]`.
- `tests/` exercises the library on concrete values.
