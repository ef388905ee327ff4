# cndrv

A driver binding for Cambricon MLU devices (CNDrv, CNRTC) and the CNNL library, split in two.

- `src/` is the verified library. It holds what the binding decides and computes around each
  driver call: the text of sizes, versions and device reports; the order of versions; the
  correspondence between CNNL element types and digit layouts; how a context is given back and
  how a closure runs in one; the copies to hand to the driver; the steps of a run-time
  compilation and of a benchmark, as state machines driven by the driver's answers.
- `app/` is the driver layer: the SDK's C functions, the handles that give their resources back
  when dropped, and the loops that run the library's state machines against the driver.
- `tests/` exercises the library on concrete values.
