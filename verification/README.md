# Milestone escrow

A Soroban contract that holds a client's deposit and pays a freelancer milestone
by milestone. A milestone is paid when the client approves it, when nobody
objects within the agreed time, or as the arbiter or the admin decides. The
escrow can be paused, frozen and cancelled, and it computes how refunds, fees,
yield and taxes are shared, to the last unit.

The contract's logic is verified with [Verus](https://github.com/verus-lang/verus).

## Layout

- `src/` is the verified library. `MilestoneEscrow` has one function for each
  endpoint. It works on a `Host`: the stored entries, the time and the balance
  that the call sees, and the signatures, transfers and events that it asks for.
  Beside each endpoint stands a specification function, named after it with
  `_outcome`, that says what the call comes to: the value or the error, the
  ledger afterwards, the signatures, the transfers and the events.
- `src/laws.rs` states what holds of every call: that it keeps the ledger sound
  and moves tokens only between the contract and the parties; and, but for one
  exception, that it pays out no more than was held for the milestones it pays.
  The exception are the three overrides that settle a tax withholding. They pay
  by what was recorded, which is more than is held where parts of the milestone
  were paid since.
- `src/promises.rs` states what holds of several calls together: that a cancelled
  or paused escrow refuses the parties, that a claim computes what its preview
  did, that each role acts for itself, that an approval counts once, and the like.
- `src/amounts.rs` reads the lists of the host, and holds all that is trusted.
- `tests/` runs the library against a small chain that keeps balances, checks
  signatures and undoes a refused call.
- `app/` is the contract as the host runs it. It reads and writes the stored
  entries, checks signatures, moves tokens and publishes events.

## What a call means

The host checks a signature for every address that a call put into `auths`, also
where the call is refused, and undoes everything where one is missing. A refused
call changes no entry, moves nothing and publishes nothing.

Three things stop a call altogether instead of refusing it, and are conditions of
the library's functions: getting to an item of a list that is no amount (the
functions that end in `_can_run` tell), a reputation that would grow beyond what a
counter holds (`has_room_for_credits` tells), and asking for the deadline of a
milestone that does not exist.
