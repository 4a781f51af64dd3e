# pxe_cloud_init

The cloud-init answers of a PXE server: user data, metadata and vendor data for the machines that
it boots, each as the key of a template and the texts to render it from.

- `src/` is the library, verified with Verus. `user_data`, `reply` and `router` decide what a
  machine is answered. `discovery` makes the user data of a DPU that is being taken into service,
  out of the agent's configuration file (`agent_config`, `encoding`) and the custom cloud-init
  snippets that are on offer (`listing`, `snippets`).
- `tests/` runs the library on given values.
- `app/` is the HTTP side: the axum routes, the template engine, the clock, the environment and the
  directory of custom snippets.

Two calls leave the verified code: `toml::to_string` in `agent_config` and the `base64` crate's
standard encoder in `encoding`. Their contracts stand in the doc comments there. That of
`toml::to_string` also says what `toml::from_str` reads back.
