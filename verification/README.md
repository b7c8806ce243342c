# quantum_launcher

The terminal front end of QuantumLauncher, a Minecraft launcher, with its
logic verified by Verus.

- `src/` is the verified library: the state of the terminal UI and every
  key binding (`keys`), the reactions to background events (`events`),
  account and launch decisions (`accounts`, `app_accounts`, `launch`,
  `saved_accounts`), instance creation, settings and renaming
  (`app_create`, `app_instance`, `popups`), version filtering (`versions`),
  log buffers (`logs`), argument parsing (`args`, `arg_list`), mod-list
  ordering, selection, jar mods and export (`mod_order`, `mod_select`,
  `jarmods`, `mods`) and the Discord presence (`presence`). The launcher
  window's account, settings, mod management and mod store handling are
  steps from a state and a message to the next state and the work to
  start (`gui_accounts`, `launcher_settings`, `manage_mods`, `mod_store`,
  `gui_create`, `lwjgl`, `token_password`, `token_store`), and `startup`
  decides the first screen and loads the saved accounts. What the terminal
  tabs show is computed in `form_view`, `tab_views` and `log_view` (which
  wraps log lines with `textwrap` and keeps the scroll offset in range).
  `laws` holds the properties that span several operations.
- `tests/` runs the library on concrete values.
- `app/` is the unverified shell: the terminal, drawing, the event loop,
  and the file, keyring, network and process work, which it hands to the
  library as plain values.
