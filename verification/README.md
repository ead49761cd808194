# ohos_app

`cargo ohos-app` wraps a Rust library project into an OHOS Stage Model shell
project and drives the OHOS packaging tools (`cargo rustc`, `ohpm`, `hvigor`).

- `src/` is the verified library: settings resolution (command line, then
  environment, then `ohos-app.toml`, then defaults; for the build profile,
  `--release`, then the file, then the environment, then `debug`), target/ABI
  mapping, SDK
  and hvigor discovery, the cargo and tool environment, template rendering,
  the shell project layout, and the `init` / `build` / `package` runs as a
  state machine (`commands::workflow`) that decides each next step from the
  outcome of the last one, and the text that reports each error.
- `app/` is the program: command-line parsing, reading the environment, the
  configuration file, `cargo metadata` and the SDK description, and performing
  the actions that the state machines (`Workflow`, `SdkDiscovery`) ask for on the file system and with
  child processes.
- `tests/` exercises the library on concrete values.
