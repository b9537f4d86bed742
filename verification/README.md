# atom_sampler

A small stereo sampler: a JACK audio thread records and plays two
channels, a wave manager thread drives recording and playback workers,
and egui windows show the waves and send events.

`src/` is the verified library (Verus). It holds the decisions and the
data handling of every part:

- `wave/record.rs`, `wave/play.rs`: the recording and playback workers'
  steps — filling the wave chunk by chunk, chunk peaks, handing out
  playback chunks;
- `wave_handler.rs`, `wave_manager.rs`: the wave handler's state machine
  and how events drive it;
- `jackprocess.rs`, `jackmidi.rs`: the audio callback's transport state
  and MIDI messages;
- `ui/`: the wave envelope for display, the console, the pad and the
  sampler window's decisions; `mockup.rs`: the mock-up window;
- `text.rs`, `atom_event.rs`, `error.rs`, `dsp/sample.rs`: rendering,
  events, errors and samples.

Audio values are held in the library as `f32` bit patterns and compared
in IEEE-754 order.

`app/` is the program around it: the JACK client, the threads, the ring
buffers and channels between them, wave file reading and the windows.
