# blaine

A watchdog for a laptop: it warns when the battery runs too low or too high,
when a watched disk goes missing, and when a network interface is down.

- `src/` is the verified library (Verus). It holds every decision: which
  battery alert a reading calls for (`battery_monitor`, comparing levels by
  their IEEE 754 order keys from `level`), what a pass over the disks does and
  how the missing counts evolve (`disks_meter`), what a pass over the network
  interfaces reports (`failed_networks`), how the path query for a disk is
  built and the translator's answer read (`chaeyoung`), and how numeric
  command-line options are read (`cli`).
- `app/` is the program: it reads the command line, probes the batteries,
  disks and interfaces, runs the external tools (`c-trans`, `notif`,
  `melissa-alerts`, `mmc31`, `echelon4`) and shows message boxes.
- `tests/` runs the library on concrete values.
