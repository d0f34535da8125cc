# speedtest-tui

A terminal internet speed test: latency, jitter, packet loss, multi-stream
download and upload, a quality grade, a saved history and JSON/CSV export.

## Layout

- `src/` — the verified library (Verus). Its modules, each function with a
  contract:
  - `text` — Unicode white space, trimming, exact comparison, decimal text;
  - `lookup` — the address lookup's cooldown after a rate limit, the
    `Retry-After` header, and how the lookup service's reply is read;
  - `state` — phases, the starting theme (including `auto`, from the
    terminal's colour setting), address information, configuration
    defaults, command-line options, the export after a finished test;
  - `control` — what each key does to the dashboard, and how the
    measurement pipeline's events move the phase and the transfer workers;
  - `history` — the rolling throughput window, the capped saved history,
    the history graph's window, labels and footer, the history table rows;
  - `quality` — grading from the four dimension scores, the star rating;
  - `transfer` — request sizes and measurement addresses, server choice by id;
  - `dashboard`, `layout`, `theme` — what the panels say, where they go,
    and the palettes;
  - `timestamps`, `export` — rendered timestamps (through chrono), export
    files and the CSV columns.
- `app/` — the program around it: terminal, network, files, the
  floating-point measurements and the drawing, the quiet-mode run, and the
  placement of the navigation bar and of the help screen's lines.
- `tests/` — tests of the library on concrete values.
