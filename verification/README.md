# agman-tui

The terminal front end of agman, an agent manager: its state, what every key
does to it, and what is drawn of it. The library in `src/` is written in Verus,
and its contracts are proved.

## How it is laid out

- The state of the front end is `app::App`, made of one part for each view:
  `list`, `detail`, `preview`, `notes`, `notifs`, `show_prs`, `settings`,
  `archive`, `inbox`, `respawn`, `telegram` and the wizards. Each part says in a
  spec function what a key leads to and what it asks for.
- `App::handle_event` takes a key over and gives an `app::Action`: what is to be
  done outside. The answer comes back through the methods that start with `on_`
  and `apply_`. `App::tick` says what is due at a moment.
- Messages to agents are delivered by a state machine, `inbox::TargetPoll`, from
  events to actions.
- `vim` is the modal editor on top of `textarea`, the model of the text area of
  `tui_textarea`.
- The modules whose names end in `_pane`, with `dialogs`, `status_bar`, `clock`,
  `layout`, `log_render` and `markdown`, give the lines, styles and entries that
  are drawn.
- `text`, `cells`, `highlight`, `times`, `table`, `order` and `select` are what
  the others are built on.

What holds of the library as a whole stands in public proof functions beside
what it speaks of.

`app/` runs the terminal around the library: it reads events, does what the
library asks for through a `Host`, and draws. `tests/` runs the library.
