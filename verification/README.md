# voxio

A lightweight audio playback library, with its decisions verified in Verus.

- `src/` is the verified library: command coalescing, the decoder worker as a
  state machine, seeking, gapless handoff, the error budget of decoding,
  ReplayGain, channel mapping, chunking for the resampler, the audio callback,
  the visualization tap, the output supervisor, the watchdog, duration scans, and
  waveform extraction.
- `tests/` runs the library on concrete values.
- `app/` is the engine around it: threads, files, codecs, devices, atomics, and
  all floating-point arithmetic.

Samples and gains pass through the library as the bit patterns of `f32`, times as
whole microseconds. Where arithmetic on samples is needed, the library takes it
as a function of its arguments alone, and says of each result which values it was
applied to.

What remembers what it has seen (a container, a codec, a resampler) stays outside.
There the library says step by step what is to be done next, and takes in what
came of it.

The worker and the supervisor never wait. Each says what it waits for (`Stage`,
`Vigil`); the engine does that and hands back the answer (`Reply`, `Report`). What
is to be done meanwhile comes out as a list of effects, in order.

What callers can rely on is stated and proved in `src/laws.rs` and
`src/invariants.rs`, and next to the types that it concerns.
