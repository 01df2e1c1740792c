# vcpctl

A terminal UI for controlling DDC/CI monitors: brightness, contrast, input source, colour presets,
power mode, speaker volume, and whatever else a panel exposes over MCCS, from the keyboard or the
mouse.

The logic is a library verified with [Verus](https://github.com/verus-lang/verus); a thin program
around it talks to the terminal, the file system and the monitors.

## Layout

```
src/                the verified library
├── app/            application state: what a key, a mouse event or a message does
├── screens/, ui    what each screen shows, and what a click on it means
├── components/     sliders, selectors and actions
├── commands/       controls built from a scan, and the jobs that carry out commands
├── worker          the queue that jobs wait in
├── backend/        what monitors are asked and what their replies mean
├── vcp             displays, capabilities and readings
├── cache           what is remembered of a scan
├── categories      the sections of the Controls screen
├── effects, styles, logging, input
└── text, numbers   text as sequences of characters
app/                the program: terminal, files, processes, i2c
tests/              tests of the library
```

## What is proved

Each function of the library states what it returns for every input. `App` has a mathematical model,
`AppView`: every event is a function from one state to the next and to the command that it issues,
and `handle_key`, `handle_mouse` and `handle_msg` are proved to be those functions. The model is what
the laws are about, for example:

- no key or mouse event changes a value on screen: only a confirmed write or a live reading does;
- an action is only ever run, and a raw value only ever written, by answering its prompt with a yes;
- a remembered scan brings back the controls of the scan that it was made from;
- a reply that carries no value never builds or changes a selector;
- every control has exactly one row, in its section, and a click on that row means that control;
- a refused write is never sent, and a write counts only once the monitor reads back that value;
- every feature that a monitor declares is kept, whether it is recognized or not.

What the library takes from other crates is declared next to the code that uses it, with what is
relied on: regular expressions (`regex`), capability strings (`mccs-caps`), the feature database
(`mccs-db`) and EDID blocks (`edid`).

## Keys

| Key | Action |
| --- | --- |
| `↑`/`k`, `↓`/`j` | Move focus between controls |
| `←`/`h`, `→`/`l` | Adjust the focused slider or cycle the focused selector |
| `enter` | Run the focused action (opens a confirmation prompt first) |
| `y` / `n` / `esc` | Confirm / cancel a pending action |
| `v` | Toggle the Raw VCP screen |
| `r` | Refresh (re-detect and re-read current values) |
| `R` | Full rescan: drops the cache and rediscovers everything |
| `D` | Switch display (only active with more than one detected) |
| `q` / `ctrl+c` | Quit |

On the Raw VCP screen: `↑↓`/`j`/`k` move, `f`/`pgdn` and `b`/`pgup` page, `e` edits the focused
value, `r` rescans, `esc`/`v` goes back.
