# pellxd

Monitor of a PellX wooden pellets burner. Terminals 1 and 2 of the burner's
controller board are connected while it operates normally (`Low`) and
disconnected in an error state (`High`); the monitor polls them and sends
notifications through Slack, Batsign, external commands or the terminal.

The decisions are a Verus-verified library under `src/`:

- `monitor`: the state machine of the monitor loop (which reading calls for
  an alert, a failed or successful startup, or a reminder), with its laws;
- `notifiers`: which notifiers the settings call for;
- `config_location`, `paths`: where the configuration file is found;
- `startup`, `exit`: the checks before the loop and the exit codes;
- `settings`: the settings as plain values.

`app/` is the program around it: command line, configuration file, GPIO
input, HTTP and process backends, and the loop that sleeps between
iterations.
