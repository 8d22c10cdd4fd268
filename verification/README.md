# eskplus

An escrow of lamports and SPL tokens between a depositor and a beneficiary,
with its rules stated as contracts and proved.

- `src/` is the library. `state/trade.rs` holds the trade record and the two
  token programs a trade can name; `instructions/` holds the four instructions
  (open, update, cancel, fulfill), each as a function from the trade record
  and what it reads of its accounts to the new record and the ordered
  transfers it asks for; `transfers.rs` describes those transfers and their
  flows; `lamports.rs` the lamport moves the program makes itself;
  `lifecycle.rs` the laws that hold across instructions.
- `app/` is the Anchor program around it: the accounts as the runtime hands
  them over, the system and token program invocations, and the conversions.
- `tests/` runs the library on concrete trades.
