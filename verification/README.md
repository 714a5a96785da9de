# adguard_vpn_gui

The verified core of a desktop front end for `adguardvpn-cli`.

- `src/` is the library, checked by Verus:
  - `text.rs`: white space, trimming, lines, words and joining, each with a
    specification of its result;
  - `output.rs`: cleaning of the tool's output (trimming, ANSI colour sequences
    removed through the `regex` crate);
  - `locations.rs`, `options.rs`: the location table parser and the picker entries;
  - `commands.rs`: the command lines the application runs and how their output is
    reported;
  - `app.rs`: the application state and its state machine (`App::update`), specified
    by the spec function `step`;
  - `laws.rs`: properties over several steps (well-formedness of every state, the
    15-second status refresh, the login attempts in order, the busy flag, the settings
    and exclusion commands, the location table read line by line).
- `app/` is the program: the iced window, the timer, and the runs of the tool.
- `tests/` runs the library on concrete inputs.
