# fctools

A verified core for managing Firecracker microVMs, written in Verus.

- `src/` is the library. Every function in it is verified against its `requires`/`ensures`
  contract: the arguments of the `firecracker` and `jailer` binaries, argument and command
  modifiers, VMM identifiers, the plans by which executors prepare, invoke and clean up a VMM,
  the lifecycle of a VMM process and of a VM (which operations each state allows and what the
  state becomes), the Management API requests that initialize and drive a VM, link-local IPv4
  subnet arithmetic, fcnet (IPv4 addresses only) and NAT network commands, privilege-elevating process spawners, and
  the protocol of proxy filesystem threads. Public proof functions state the laws that hold
  across calls (for instance that a terminated process stays terminated, that pausing and then
  resuming a VM leaves it running, and that link-local subnets of one length share no address).
- `tests/` exercises the library on concrete values.
- `app/` holds the asynchronous drivers that carry out what the library plans: spawning
  processes with Tokio, filesystem work, HTTP over the Management API socket with hyper, metrics
  and serial console readers, and the proxy filesystem threads.
