# Lumina

Lumina switches a Linux desktop between light and dark color schemes, by hand
(`lumina light`, `lumina dark`, `lumina toggle`, `lumina status`) or on a daily
clock schedule run by a background daemon (`lumina daemon start|stop`). The
GNOME backend reads and writes `org.gnome.desktop.interface color-scheme`
through `gsettings`.

The decisions are a Verus-verified library under `src/`:

- `theme`: the theme, and the `ThemeBackend` port that desktops implement;
- `backends::gnome`: the `gsettings` commands and how their output is read;
- `config`: the TOML configuration, its defaults and validation;
- `clock`, `scheduler`: times of day, the daily schedule and its next change;
- `daemon`: PID file contents, startup and shutdown waits, one scheduling cycle;
- `status`, `notifications`, `cli`, `text`, `utils::paths`: what is printed,
  announced, parsed from the command line, and where files live.

`app/` is the program around it: command-line parsing, files, processes,
signals, logging and desktop notifications.
