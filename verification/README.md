# termtastic

The verified core of a console client for Meshtastic radios, written in
Verus. The library keeps the application's state and the reducer that
changes it, and states in contracts what each operation does.

Layout:

- `src/` — the library, verified by Verus:
  - `state.rs`: the application state, its actions and the reducer;
    `laws.rs`: properties that span several operations; `form_laws.rs`:
    what the settings forms' choice lists offer, and editing a loaded form;
  - `types.rs`, `chat.rs`, `node.rs`, `device.rs`, `device_config.rs`,
    `ordered.rs`, `order.rs`: the data the state is made of and their orders;
  - `nodes_view.rs`, `traceroute.rs`, `helpers.rs`, `text.rs`: the node list,
    routes and the text the interface shows;
  - `formdata.rs`, `serialize.rs`, `forms.rs`, `form_table.rs`, `input.rs`,
    `settings.rs`: settings forms, their fields, rules and sources;
  - `events.rs`, `packets.rs`, `config.rs`, `link.rs`: how the services answer
    the user, the radio and the mesh;
  - `screens.rs`, `settings_screen.rs`, `messenger.rs`, `nodeinfo_screen.rs`,
    `pickers.rs`, `ui.rs`: what the screens do with the keys; `hotkeys.rs`:
    the key hints they show;
  - `links.rs`, `chat_label.rs`, `reactions.rs`: message lines with their
    links, chat names and reaction lines;
  - `telemetry_kind.rs`: the names telemetry kinds are stored under;
    `telemetry_view.rs`: the telemetry view of the node window;
  - `radio.rs`: names of the radio protocol's enumerations.
- `tests/`: tests of the library on concrete values.
- `app/`: the program around the library: arguments and directories,
  conversions from the radio's protocol types (telemetry readings among
  them), serialization of configuration records, and floating point text.
