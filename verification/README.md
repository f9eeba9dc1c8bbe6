# omp_manager

A terminal manager for Oh My Posh: install it, pick a Nerd Font, browse and
preview themes, and write the `oh-my-posh init` line into shell profiles.

The library under `src/` holds the logic, each function with a contract that
Verus proves:

- `text`, `paths` — string helpers and paths, as used by the rest.
- `shell`, `profile_laws` — shells, init lines, reading and rewriting
  profiles, and the laws of writing and removing the init line.
- `themes` — the theme catalog, discovery, filtering, search, downloads.
- `segments`, `config`, `preview` — the configuration model and the layout
  of a prompt preview.
- `fonts`, `install`, `detect`, `platform` — what the system probes and the
  installer commands mean.
- `app`, `events` — the application state, what each key and mouse event
  does to it, and what completed outside work changes.

`app/` is the program around it: the terminal, the commands and files, the
JSON form of configurations, and the drawing.
