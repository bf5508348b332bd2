# rust_binder

The entry points of the Android Binder driver, with their decisions verified by Verus.

- `src/` decides: rounding and numbering, what is delivered and counted, what opening,
  using and closing a device asks of whom and in which order, what the debug files hold,
  and what is returned to C. The modules named `*_run` and the functions named `law_*`
  state what whole operations do, whatever the services around the driver reply.
- `app/` performs: it exports the C functions, runs the steps that `src/` gives, and calls
  the kernel and the modules that own contexts, processes and threads.
- `tests/` runs the steps against pretended services.
