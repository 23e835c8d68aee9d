# glutin (GTK backend)

The Unix backend of an OpenGL context library whose contexts draw into a GTK
drawing area.

- `src/` is the verified library: the pixel format that a context gets from
  the caller's requirements (`pixel_format`), the context's own state and its
  answers (`context`), the error types (`error`), and the OpenGL library opened through
  `gl_loader`, in which functions are looked up (`gl_library`).
- `app/` builds the windows and drawing areas with `tao`, `gtk` and `gdk`, and
  hands the library the outcome.
- `tests/` exercises the library.
