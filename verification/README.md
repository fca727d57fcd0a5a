# frio

An event-driven networking library built around a Windows completion port.

- `src/` is the verified library. It holds the data model (endpoints,
  sockets, connections, listeners, the overlapped record, the socket address
  record) and every decision: `AppRunner` decides the application's run and
  `ListenerSetup` decides each step of setting up a TCP listener. Both are
  handed what the last system call returned and answer with the next call to
  make.
- `app/` performs the Windows system calls that those answers ask for.
- `tests/` exercises the library on concrete values.
