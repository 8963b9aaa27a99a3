# ocl_raw

The checks and decisions around raw OpenCL calls, verified with Verus.

- `src/status.rs`: the OpenCL status codes, their names, and the lookup of a
  status by its code.
- `src/text.rs`: decimal text of integers.
- `src/error.rs`: the error type and the evaluation of the status code that a
  call reports (`errcode_string`, `errcode_try`, `errcode_assert`).
- `src/queue.rs`: wait lists, new events, work sizes and byte counts of
  queued commands.
- `src/context.rs`: the size check by which an object that is not a context
  is detected.
- `src/program.rs`: what follows a program build, and the build logs that
  make it an error.
- `src/device.rs`, `src/platform.rs`, `src/kernel.rs`: device listings,
  platform text, kernel names.
- `src/utf8.rs`: the one call into std that decodes UTF-8.

`app/` makes the calls into the OpenCL runtime (`cl.rs` declares them) and
hands every result to the library.
