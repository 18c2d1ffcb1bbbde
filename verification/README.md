# starter_flow_core

The verified core of a flow engine's node layer: identifiers, slot values
and slot maps, the built-in node kinds' decisions, the flow-level contracts,
the flow-as-tool and flow-as-service surfaces, the registry of flows exposed
as tools, node-settings validation, and the flow-file watcher's decisions.

- `src/` is the library, written in Verus: every function carries a
  contract that Verus proves. Calls into outside crates (`uuid`, `blake3`,
  `jsonschema`, parts of `std`) sit behind small trusted wrappers whose
  contracts say what they claim of the call.
- `tests/` runs the library on concrete values.
- `app/` is ordinary Rust around the library: `serde_json` conversions, wire
  shapes with serde derives, the wall clock, the waits and side effects of
  the built-in nodes (`sleep` timer, `log` event, `trigger.explicit`
  channels, `transform` functions), the `ai-agent` turn loop, the HTTP
  transport of the `http-out` node and the directory watcher. It makes I/O calls and hands
  the results to the library.
