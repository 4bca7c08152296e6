# assethook

Redirects Android asset loads to replacement files kept under
`/data/local/tmp/assethook/<package>/`, as an `LD_PRELOAD` library.

* `src/` is the verified library (Verus): which opens are redirected
  (`open`, `pkg`, `path`), how a redirected asset answers length, read and
  seek requests (`stream`, `capi`, `cppapi::hooks`), and how the method
  table of internal assets is probed and patched (`cppapi::fakeasset`,
  `cppapi::asset`).
* `app/` holds the hooks themselves: the exported C symbols, symbol lookup
  in `libandroid.so`, raw memory access and file mapping, and the loops
  that run the library's step functions (opening, probing, walking to the
  top of an object). The hooks take their answers from the library; what
  stays in `app/` is the outside work and the order it happens in.
* `tests/` exercises the library on concrete values.
