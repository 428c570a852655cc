# nemoclaw-engine

The blueprint orchestrator of NemoClaw (`plan`, `apply`, `status`, `rollback`),
with its decisions written in Verus and proved against their contracts.

- `src/` is the verified library: the blueprint model and profile lookup, the
  `apply` and `rollback` state machines, the `status` report and the parsing of
  `docker inspect` output and the sandbox configuration, run ids and the stdout
  protocol, and the layout of the run state on disk.
- `app/` is the command around it: argument parsing, `openshell` and `docker`
  processes, the YAML and JSON files, and printing.
- `tests/` runs the library on concrete values.
