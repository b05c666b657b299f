# kugou_tui

The logic of a terminal player for online music, verified with Verus.

The library decides and the program around it carries out. Handling an event
changes the state of the program and leaves a list of effects: a request to send,
a file to remove, a command for the audio thread. Whoever runs the program carries
them out in order and hands back what comes of them, as an event or as the answer
to that effect. The time, the date and random numbers come in with each event.

- `src/app/` holds the program: `state` has its state and its view, `effect` what
  it can ask for, `actions` what keys do, and the other modules what they are named
  after. `laws` and `order` state what holds of the program as a whole.
- `src/audio/` holds streams that are played while they come in, the cache, the
  decisions of downloads, the state of the audio thread and the choice of output
  devices.
- `src/config.rs`, `src/source.rs`, `src/cookie.rs`, `src/model.rs`, `src/event.rs`,
  `src/error.rs` and `src/text.rs` hold what both share.
- `app/` is ordinary Rust: the terminal, the disk, the network and the threads.

Each function of the program has a contract of the form
`final(self)@ == old(self)@.name(..)`: the view after the call is the view before it,
changed by a spec function of the same name. Laws are stated over those.

Volumes are bit patterns of single-precision numbers; whatever has to calculate with
them stands in `app/`.
