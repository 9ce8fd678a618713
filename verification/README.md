# mandelbrot

An SDL viewer for the Mandelbrot set, Julia sets and Newton fractals.

- `src/` is the verified library (Verus): the fractal families and their
  switching cycle (`fractal`), the integer settings with upscaling,
  downscaling and switching (`settings`), the keyboard-driven event step
  (`controls`), and the pixel walk and pixel colouring (`pixels`).
- `app/` is the window, the floating-point view of the complex plane, the
  escape-time iterations (in `f64`) and the parallel drawing.
- `tests/` exercises the library on concrete values.
