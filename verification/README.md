# rechnen

Arithmetic drills for first graders: addition and subtraction up to 10 or 20,
with the result or the second operand to find, a ten-bead abacus as help, and a
graded message after ten answers.

- `src/` is the library, verified with Verus:
  - `task.rs`: exercise kinds (`TaskType`) and tasks (`Task`); random task
    generation and the answer check.
  - `session.rs`: the state of an exercise session (`MyApp`), its model
    (`SessionView`), every transition the window triggers, and the proved laws.
  - `abacus.rs`: one abacus row and its beads.
  - `random.rs`, `clock.rs`, `text.rs`: the calls into `rand` and `std`
    (random draws, clock readings, spans of seconds, decimal text).
- `app/main.rs` is the eframe window that draws the session and feeds it input.
- `tests/` exercises the library on concrete values.
