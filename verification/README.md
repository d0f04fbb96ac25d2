# oxideplay

A media player on the `oxideav` framework, whose rules are verified with Verus.

- `src/` is the library. It decides: when a frame is due, where a seek leads, how a
  picture fits a window, which output is opened, what the user is told. Every function
  states in its contract what it returns; functions named `law_…` state what holds
  across functions. Time is exact, in whole nanoseconds; volumes count in fixed units
  of a percentage point.
- `app/` is the player: the command line, the devices, the window, the playback loop.
  It makes the calls and hands the library what came of them.
- `tests/` runs the library.

What the library trusts stands in `src/job.rs` (`serde_json` and the executor's job
format) and `src/text.rs` (one function of the standard library). Everything else is
proved.

The one output of this tree is the window: it shows video and plays no sound, so that
playback follows the wall clock. `app/vdpau_vulkan_bridge.rs` draws pictures that a
decoder leaves in video memory, on FreeBSD; no decoder of the framework hands the player
such a picture yet.
