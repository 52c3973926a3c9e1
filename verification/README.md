# burrito_minigames

The game rules of the Burrito Battle minigames, two NEAR smart contracts,
written in Verus with their contracts proved:

- the **hospital**: a player sends a burrito without lives into one of three
  recovery capsules, pays the capsule price, and takes the burrito back with
  its lives restored once the restoration time has passed;
- the **incursion**: players register a burrito for an incursion, fight its
  mega burrito round by round in battle rooms, and take their burrito back
  when the incursion is over, with a reward when the mega burrito fell.

## Layout

- `src/` — the verified library.
  - `hospital.rs` — the hospital's state, its model, every method and the
    laws that relate entry and withdrawal.
  - `incursion.rs` — the incursion's types, its model, administration and the
    life of an incursion (creation, start, finish).
  - `incursion_play.rs` — registration, battle rooms, the battle round and
    the withdrawal.
  - `incursion_laws.rs` — properties that hold across the incursion's
    operations.
  - `account_map.rs` — a map keyed by account names.
  - `account.rs` — the rule for NEAR account names.
  - `decimal.rs` — decimal text of integers, both ways.
  - `text.rs` — labelled log lines.
- `app/` — the two NEAR contracts around the library: they read the
  blockchain context, parse JSON, turn the calls that the rules ask for into
  promises, and do the floating-point arithmetic of health and damage.
- `tests/` — tests of the library on concrete values.

Each method of the library takes what the contract reads from the
blockchain context (caller, block time, random seed, attached deposit) as
arguments and hands back the cross-contract calls it asks for as values.
