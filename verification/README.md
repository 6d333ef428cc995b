# hy_tuner

A bandwidth tuner for the hysteria2 client. It measures the direct
connection, shrinks the search range around that baseline, and searches the
`up` bandwidth (with `down` pinned at its minimum) and then the `down`
bandwidth (with `up` pinned at the best value found), rewriting the client's
config file and restarting the client for every candidate.

Layout:

- `src/` — the library, verified with Verus:
  - `text.rs`: trimming, decimal parsing and formatting, substring search;
  - `config.rs`: the tunable parameters and their defaults;
  - `pattern.rs`: the regular-expression searches of the `regex` crate;
  - `tuner.rs`: the search range, sampling plans, and the config-file edits
    (socks5 port, `up`/`down` lines);
  - `run.rs`: the tuning run as a state machine, with its laws;
  - `ui/`: the front end's state, key handling, parameter editing, panel
    contents and log colors.
- `app/` — the program around it: the terminal, processes, downloads,
  curl measurements and the floating-point golden-section search.
- `tests/` — tests of the library.
