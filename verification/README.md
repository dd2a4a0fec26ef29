# archinstall

Plans an Arch Linux installation from a declarative description (partitions,
packages, system configuration, users, boot loader) and proves, with Verus,
what each plan is.

- `src/` — the verified library. Every installation step is computed as data
  (`terminal::Step`: commands to run, lines to append to files, directories to
  create, devices to mount or swap spaces to enable). Steps that depend on the
  state of the machine carry the question to ask (`fs::Query`) and are resolved
  by `Step::resolve` once it is answered.
- `app/` — runs the plans: reads the description with serde, performs each
  step on the machine, answers the questions.
- `tests/` — scenarios on concrete descriptions.
