# sprite_engine

A small sprite-game toolkit with its logic verified by Verus.

- `src/storage.rs`: `Storage<T>`, a growable store addressed by typed `Handle`s,
  with read-after-write and handle-freshness laws.
- `src/actor.rs`: `Actor<P, A, S>`, a table of actors kept as parallel arrays.
- `src/input.rs`: the decision whether window events close the window.
- `src/shader_log.rs`: sizing of OpenGL info-log buffers.
- `app/`: the program (window, OpenGL, images, matrix math), unverified.
