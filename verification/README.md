# e1000

A verified model of the Intel PRO/1000 (e1000) network driver logic for
FreeBSD's iflib, written in Verus, together with the token rewriter that
joins identifiers in bracket groups.

The library (`src/`) holds the driver's logic and its proofs. Every access
the driver makes to the machine goes through the `Platform` trait and is
recorded in a ghost trace of the adapter. Contracts speak of that trace:
most MAC routines state which registers are read and written, with which
values and in which order; the PHY and EEPROM routines state the command
that each MDI or Microwire transaction carries and the value a read gave,
and some of the longer PHY sequences state only parts of what they write.

- `consts`, `regs`, `hw`, `rings`, `iflib`, `headers`: register layout,
  device description, descriptor rings, the stack's view of the interface,
  packed header and flash-register fields.
- `platform`, `adapter`: the machine interface, the trace and the adapter.
- `mac`, `phy`, `nvm`, `link`, `e8254x`: the shared MAC/PHY/NVM routines,
  link setup and flow control, and the 8254x family.
- `ops`, `units`, `stats`, `txrx`, `lifecycle`, `attach`: the driver's
  operations, transmit/receive unit programming, statistics, the
  transmit/receive fast path, and the attach/init/stop life cycle.
- `interp`: identifier interpolation in token streams.

`app/` runs the library on a real machine: a memory-mapped register window
and the host's services behind the `Platform` trait, and the attach and
init entry points with the library's preconditions checked first.
