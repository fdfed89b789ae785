# ytdlp_ty

The logic of a desktop front end for yt-dlp, verified with Verus: how a
download's and a format probe's argument lists are built from the user's
Parameters text and format-selection mode, how output templates resolve, how
yt-dlp's stdout is read (progress, merges, skipped files, printed paths, `-j`
documents), the job queue, stored settings and templates.

- `src/` is the verified library; every public function states its result in
  `ensures`, and the properties that span functions stand as `law_*` proof
  functions.
- `tests/` runs the library on concrete inputs.
- `app/` is the desktop shell around it: commands, processes, threads, the
  SQLite store and the floating-point progress display.
