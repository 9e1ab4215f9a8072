# llvm_pm

A wrapper around LLVM's new pass manager, with its decisions verified by
Verus.

- `src/` is the verified library: optimization-level and pass-result codes
  of the C ABI (`opt_level`, `traits`), C strings and errors reported by the
  pass-manager stubs (`error`), pass-manager options (`options`), pass
  manager handles and the custom passes they keep alive (`pass_manager`),
  analysis manager handles (`analysis`), the per-manager registry and cache
  of CGSCC and loop analyses (`registry`), the plugin API's decisions
  (`plugin`) and the reading of a plugin declaration (`plugin_args`).
- `app/` holds what Verus does not check: the C ABI of the stubs, the pass
  and analysis traits over inkwell's IR types, the pass managers that own
  the stubs' bundles, the process-wide analysis registries, the plugin
  `PassBuilder`, the `plugin` attribute's code generation, and the bridge to
  the `llvm-plugin` crate.
- `tests/` runs the library on concrete values.
