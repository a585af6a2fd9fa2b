# streamq_native

The native module of StreamQ: global keybinds, media sessions, audio devices
and per-application routing, window effects, overlay widgets and the MPRIS
player, for Linux and Windows.

- `src/` is the library, verified with Verus. It holds the decisions of the
  module as functions from plain values to plain values, with contracts: how
  host input codes map to virtual keys and XKB triggers, which media sessions
  are reported and when, which audio stream or sink belongs to an
  application, how policy device ids are packed, what a keybind press
  resolves to, what the MPRIS player announces, and the window-effect bits.
  Calls into outside crates (`blake3`, `url`, `mpris-server`) stand behind
  small trusted wrappers whose contracts are stated in their doc comments.
- `tests/` runs the library on concrete values.
- `app/` is the Node-API binding and the operating-system side: D-Bus,
  PulseAudio, the desktop portal, COM and WinRT, GTK. It reads from the
  system, hands plain values to the library and performs what the library
  decides.
