# An event-driven runtime, verified

A small asynchronous runtime built from the ground up: an epoll poller,
reactors that turn readiness events into wakes, executors that poll the
woken tasks, hand-written futures that read from named pipes, and two
generators written out as state machines.

`src/` holds the logic, verified with Verus; every decision that the
runtime takes on what the kernel or the C library answers is a function
there, with its contract:

- `clib`: the C types, constants and records exchanged with the kernel.
- `file`: a readable file; the outcome of opening it and the bytes a read
  collects (up to `EOF`, refused when one is NUL).
- `epoll`: the poller by token; `fd_poll`: the poller that remembers its
  files.
- `future`: executor, reactor and the `ReadNChars` future of the
  single-threaded runtime.
- `old_world`, `fut`: the file-reading runtime (context of wakers, the future
  that gathers a hundred bytes, executors with a task queue).
- `reactor_executor`: a reactor that forwards tokens to an executor of
  registered actions.
- `generator`, `vtable`: the generator state machines; the operations behind
  a hand-built trait object.

`app/` holds the programs: the system calls, the wakers and the loops that
run the library's steps. Run it with `poll`, `reactor-executor`, `future`,
`generator`, `waker` or `old-world` (the default). The demos read the named
pipes `pipe1` and `pipe2` (and `pipe3`, `pipe4` for `future`), made with
`mkfifo`.
