# vst_host

A VST 3 plugin host whose decisions are verified with Verus.

- `src/` is the verified library: VST 3 result codes, text read from the
  fixed C buffers that plugins fill, the class categories and error messages,
  the state machine that loads a plugin module (`loader`), the location of a
  bundle's binary, and the editor view's geometry.
- `app/` is the program around it: it loads the plugin binary, makes the COM
  calls that the loader asks for, implements the host interfaces, and runs the
  window.
- `tests/` runs the library on concrete values.
