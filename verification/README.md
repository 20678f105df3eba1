# cursor_sync

Cursor-sharing helpers and small task-coordination pieces, with their rules proved
in Verus.

- `src/` is the verified library:
  - `mouse`: edge names (`map_from_string`, `PositionAtEdge::to_string`), which edge a
    cursor is at, and where it wraps to on the opposite side of the screen;
  - `screen`: scaling a point between screen sizes (division rounds toward zero);
  - `text`: ASCII case-insensitive comparison and UTF-16 encoding and lossy decoding;
  - `window`: zero-terminated wide strings, key text from translated key codes, the
    key that ends the message loop;
  - `counter`, `message`, `sync_barrier`, `observable`, `observer`, `point`: the
    state of the shared counter and the construction of tokio barriers and channels;
  - `select_loop`: how the worker answers each event of its `select!` loop.
- `app/` is the program around it: the Windows API calls, async tasks, floating-point
  cursor math, serde copies of the library's types, printing and sockets.
- `tests/` exercises the library with the real tokio crate linked.
