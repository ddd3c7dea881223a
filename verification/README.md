# ravioni

A front end that encodes videos to AV1 and Opus with ffmpeg. What it decides is a library that is
verified with Verus; what it does on the host is ordinary Rust around that library.

* `src/` is the library: the arguments for ffmpeg (`ffmpeg`), jobs (`job`), what the application
  knows and does (`model`), settings (`settings`), titles from file names (`parsing`), subtitle files
  (`subtitles`), and what these are made of (`metadata`, `paths`, `strings`, `time`).
* `app/` is the program: the window, the settings file, the ffmpeg processes and the clock.
* `tests/` runs the library on concrete values.

Known limitation: only the first video stream of the input file is recognized and encoded.
