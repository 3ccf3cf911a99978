# race_planner

A planner for endurance races, as a library whose behaviour is stated in
contracts and proved with Verus.

- `src/` is the verified library. `time` holds durations and instants in
  nanoseconds; `duration_text` and `text` read and write them as the
  planner's text fields do; `stint` works out an average fuel stint from its
  lap time and lap count; `schedule` plans the race stint by stint and plans
  it again from an actual end, and `fuel_stint_schedule` is the schedule
  screen built on it. The other modules hold the state of the planner's
  cards and screens: the event settings, the fuel settings and stints, lap
  factors, the roster, the event bus, the application state and top bar,
  the landing page, sign-in, and plan sharing.
- `tests/` runs the library on concrete values.
- `app/` is the program around it: it reads a stored plan as JSON, plans its
  schedule with the library, and writes it back. It also holds what the
  library leaves to its host: the fuel figures, which are floating-point
  numbers, the JSON forms of the plan, and conversions to and from `chrono`.

The library calls `chrono` to read and write dates and times of day and
`regex` to read lap times; each call goes through one small function whose
contract names what the call returns.
