# point_query_probe

Checks of prepared point queries on a file-backed database. A scenario asks a
database for something step by step and checks each answer: that a lookup by primary
key or by a unique column finds its row, that repeated lookups on an unchanged file
neither reload the memory image nor publish anything, that the commit of another
connection is seen by the very next statement at the cost of one reload, and that idle
probes of the pager change nothing.

- `src/` is the verified library. It decides what is asked and what the answers amount
  to; it performs nothing itself.
  - `value`, `protocol`: values, rows, requests and answers
  - `check`, `script`, `run`: conditions, steps, and a run of a script
  - `profile`: the hot-path profile, its lock and the guard that measures it
  - `text`, `steps`, `fixtures`, `scenarios`: the scripts
  - `laws`: what holds of every run
  - `promises`: what it means that a scenario passes
- `app/` performs what a run asks for, on an engine behind the trait `Engine`.
- `tests/` runs the scenarios against an in-memory database and against faulty ones.
