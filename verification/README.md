# async_entry

The logic of an attribute that turns an `async fn` test into a synchronous
`#[test]` that builds an async runtime (tokio by default, or monoio) and
blocks on the body, optionally running an `init` statement first and
wrapping the body in a tracing span. Under monoio the tokio-only options
(`flavor`, `worker_threads`, `start_paused`) are accepted and ignored.

- `src/` — the verified library: reading the attribute's options
  (`attrs`, `config`), the error messages (`error`), the pieces of the
  generated code and their order (`codegen`, `item`), the runtime choice
  (`runtime`), the calls into `proc_macro2` and std (`outside`), and
  properties across operations (`laws`).
- `app/` — the entry point: parses tokens with `syn`, hands plain values to
  the library, then pastes the library's pieces into the function with the
  spans the library names.
- `tests/` — tests of the library on concrete inputs.
