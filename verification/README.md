# I/O reactor

Concurrent access to I/O resources (file, network, devices etc) with the reactor pattern and
pluggable `poll` syscall engines: multiple resources are handled within the scope of a single
thread, without `async`.

Core concepts:

- **Resource**: any resource that can provide input to or consume output from the system.
- **Runtime**: blocks on all resources in an event loop and calls the service when it is possible to
  start a synchronous operation on a resource without blocking.
- **Service**: custom business logic provided by the application for a given set of resources. It
  exposes a handler API to the runtime, and is responsible for the creation and destruction of the
  resources.

## Layout

`src/` is the library, verified with [Verus](https://github.com/verus-lang/verus):

- `duration`, `timeouts`: spans of time, timestamps, and the timer which tracks timeouts;
- `error`: I/O errors;
- `nonblock`: non-blocking reads and writes;
- `resource`: resources, their identifiers, and atomic writes;
- `poller`: the interface of poll engines, and the engine which is backed by the `popol` crate;
- `text`: texts for humans;
- `runtimes`: the networking and the file runtime, the event loop, and the controller with which
  other threads command a service.

The contract of each function says what it does with the values it is given and which methods of the
service and of the resources it calls, with which arguments. The order of the calls follows where
each of them may change what it is called on, as those of the service, of the resources, of the
receiving side of the channel and of the receiving side of the waker do. It does not follow for the
sending sides, which are shared: that a command is sent before the reactor is awoken, and that
nothing else is sent, is not shown. The functions whose names start with `law_` are proofs of
properties of the library as a whole.

`app/` is the unverified part: `poll` syscalls, wakers, the reactor thread, sockets, and messages for
humans. `tests/` holds the tests of the library.
