# greentic_demo

The logic of the Greentic demo catalog, verified with Verus: the message
handlers of the red-button components (random route selection, HTTP request
preparation, playback planning, Better Stack incidents), their QA and i18n
helpers, the activity mapping of the runner bridge, the CLI overrides, the
telemetry export choices, and the presentation component of the Telco-X demo
(request routing, parameter forms, menus, report cards and chat messages).

## Layout

- `src/` — the verified library. Every public function states what it returns
  in its `ensures`; the laws that span several functions are public proof
  functions next to them (`lemma_*`).
  - `json`, `json_build`, `text` — a JSON value with its mathematical model,
    its compact and pretty rendering, and string helpers.
  - `component*`, `http2play`, `qa`, `i18n` — the red-button components.
  - `runner_bridge`, `cli`, `telemetry` — the demo host.
  - `telco_*` — the Telco-X presentation component: `telco_present` routes a
    request, `telco_screens` and `telco_cards` answer the screens that run no
    playbook, `telco_messages` splits cards into chat messages, and the
    report modules build the card of each playbook run.
- `tests/` — tests of the library against concrete values.
- `app/` — the program around the library: argument handling, environment,
  serde conversions, CBOR schemas and the figures that are measured in
  floating point.

Run `verus` on `src/lib.rs` to verify the library.
