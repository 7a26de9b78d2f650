# warp_app

The localization-aware logic of Warp's agent tooling, settings schema
generator and UI copy, written in Verus: every function in `src/` carries a
contract that Verus proves.

- `src/localization.rs`, `src/template.rs`, `src/text.rs`: catalog lookup with
  fallback to US English and then to the key, `{placeholder}` filling and
  matching, and the text helpers they rest on.
- `src/output.rs`, `src/output/`: what the agent driver prints for each input
  and output, as text in the user's language or as locale-neutral JSON.
- `src/task_status.rs`, `src/conversation.rs`, `src/task_id.rs`: ambient agent
  task statuses and IDs.
- `src/checkpoint.rs`: the periodic checkpoint coordinator as a state machine
  from state and event to next state and action.
- `src/json_tree.rs`, `src/settings_schema.rs`, `src/schema.rs`: the settings
  JSON Schema, its clean-up passes and the unambiguous translations it uses;
  `src/json_shape.rs`: when two documents differ only in translated text.
- `src/runner.rs`, `src/provider.rs`, `src/mcp_list.rs`: the agent SDK
  commands' inputs, rows and messages.
- The other modules hold UI copy: toasts, palette entries, banners, dialogs,
  tips, context-menu results, prompt suggestions and orchestration checks.

`app/` is the settings schema generator's command line and the loop that
drives the checkpoint coordinator; it does the I/O and calls the library.
`tests/` exercise the library on concrete values.
