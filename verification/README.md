# erpc_rs

A Rust binding to the eRPC C interface, split in two.

- `src/` is verified with Verus. It holds the binding's decisions as plain
  values: for every operation, the call into the C interface it makes and
  with which arguments (`ffi::FfiCall`), which objects a drop destroys
  (an `Rpc` or a context only when it owns its C object, which is settled by
  the call that gave it), which callback a call takes, and how a URI becomes
  a NUL-terminated C string.
- `app/` is the binding as its users call it: handles holding raw C pointers,
  destructors, callbacks, and the `extern "C"` declarations. Each operation
  asks `src/` for its call and makes it.
