# Agent Pulse core

Agent Pulse schedules a keyboard sequence (for example typing `continue` and
pressing Enter) against one specific desktop window. This crate is its core,
written in Verus: the functions in `src/` carry contracts that Verus proves,
except a small set of trusted items that make the calls into outside crates
and std (`chrono`, `chrono-tz`, `regex`, `uuid`, the clock). Those are marked
`#[verifier::external_body]` or written as `assume_specification`; their
contracts are believed, not proved, and each states in its doc comment what
it claims of the call it wraps.

- `model/`: tasks, schedules (relative, absolute in a time zone, recurring),
  actions, keys, presets, targets, settings, history.
- `scheduler/`: firing decisions, reconciliation after restarts or sleep,
  and one pass of the scheduler loop as a state-to-plan function.
- `executor/`: the action sequencer, a state machine that resolves the
  target, verifies activation and focus, checks that the run is still
  wanted, and only then asks for input.
- `platform/`: window matching and the backends' rules (Windows key events,
  X11 key names and checks, System Events key codes and replies).
- `store/` and `commands.rs`: the schema-versioned document, its recovery
  rules and the operations the interface performs on it.

`app/` is the runtime around the core: the store file, the scheduler thread,
the X11 backend and the shared state.
