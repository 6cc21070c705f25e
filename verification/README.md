# autonomous_navigation

Guidance, navigation and mission-design logic for a small-body rendezvous and
for multi-flyby tours, written and verified with Verus.

The library decides; it does no floating-point arithmetic. Numbers enter as
`scalar::Scalar`, an IEEE 754 double held by its bit pattern, which the library
compares, orders and stores, and whose comparison is proved to be the numeric
one. Integration, linear algebra and random noise belong to the programs in
`app/`, which hand their results to the library and carry out what it decides.

## Layout

- `src/` is the verified library:
  - `scalar`, `text`, `selection`: numbers, text and choices among candidates.
  - `bennu_ephem`, `proximity_init`, `server`: tables, handovers and settings
    that are read from text.
  - `cruise_design`, `cruise_operations`, `dsn`: the transfer, the cruise, and
    ground orbit determination.
  - `ekf`, `landmark`, `opnav`, `schedule`: onboard navigation and its sensors.
  - `proximity_mission`, `mission_state`, `proximity_ops`, `pointing`,
    `dynamics`: guidance near the body.
  - `attitude_tuning`, `commander`: attitude laws, activities and mode
    schedules.
  - `trajectory_search`, `flyby_chain`, `soi`: flyby tours and passages.
  - `mission_pipeline`: the order of the mission's stages.
- `tests/` runs the library on concrete values.
- `app/` holds the programs, one per subcommand. They use the other crates of
  the workspace for dynamics, ephemerides, trajectory solvers and the planner's
  own configuration.

## Conventions

Public functions state in `ensures` what they return for every input. Laws that
relate several functions, or speak of whole runs, are public proof functions
next to the functions they are about.
