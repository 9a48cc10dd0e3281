# thalamic-relay

A relay that watches GPU telemetry, steps an in-process spiking neural network
and answers a UDP control surface, with its decision logic verified in Verus.

- `src/` is the verified library: the emergency-brake supervisor of the main
  loop (hysteresis of three real all-clear readings, checks every tenth step),
  the UDP message types and how `Stimuli` messages fill the input channels,
  the fail-closed single-instance lock, the precedence of safety verdicts,
  NVML power-limit conversions, option
  validation and fault codes.
- `app/` is the program around it: option parsing with clap, sockets, the
  tokio loop, NVML and nvidia-smi, Prometheus metrics, and everything that
  works on floating-point readings (telemetry, safety thresholds, stimulus
  clamping, neuromodulator levels).
- `tests/` exercises the library on concrete values.
