# cpcontrol

Control logic for a gateway that drives a vehicle charge-port (CP) ECU over CAN:
the frames sent on each schedule (10, 50, 100, 250, 500 and 1000 ms), the state
machines driven by the charge port's hello and status frames (handshake,
firmware identity, door, charge sequencing, link timeout), and the operator
console on the serial port (commands, clock entry, what each refresh shows).

Layout:

- `src/` — the library, written in Verus. Every function states its behaviour
  in `requires`/`ensures` over spec functions, and Verus proves it. The library
  computes only: it returns the frames to send and the console actions to take.
  `src/laws.rs` states and proves properties that span several operations.
- `tests/` — tests on concrete values.
- `app/` — the firmware around the library: board set-up, the RTIC schedule,
  CAN transmission and reception, the serial console text and the real-time
  clock.
