# mpv_wallpaper

A video wallpaper for Wayland compositors with layer-shell (Hyprland and others):
mpv decodes and renders the video into an EGL surface on a background layer.

- `src/` is the verified library: command-line parsing (`cli`), the mpv option list,
  event answers and error texts (`mpv`), the frame-callback loop and presentation
  choice (`frame`), the decoder's stream choice, setup checks and decode loop as a state
  machine (`decode`), presentation timing (`timing`) and decimal text (`text`).
- `app/` is the program around it: Wayland, EGL and mpv calls, the calloop event loop,
  the ffmpeg decode thread, and printing.
- `tests/` exercises the library on concrete values.
