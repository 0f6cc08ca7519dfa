# peoplemodeler

The decision logic of the People Modeler application (a tool for modelling
people by their personality traits, motivations, biases and behaviours),
written in Verus with its contracts proved.

- `src/` is the verified library: the data model of a person and its persona
  masks, the edit form's rules (buckets, sections, list edits, progress),
  predictions, relationships and the relationship map, teams, the per-trigger
  insight strategies, the pairwise comparison analysis and its English and
  French sentences, the consistency
  warning badge, the undo history, the guided tour, the theme, and the
  backup/sync helpers. Each public function states what it returns in its
  `ensures`; the `lemma_*` proof functions state the laws that span several
  functions (round trips, involutions, orderings, what a write leaves alone).
- `tests/` runs the library on concrete values.
- `app/` is a small native program around the library: it keeps the device
  state (theme, time of the last backup, tour mark) in the working directory
  and draws the radar chart's floating-point geometry.

Dates are formatted through `chrono`, the one outside crate the library calls.
