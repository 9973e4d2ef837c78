# wfinfo

Verified core of WFinfo-ng, a helper that values Warframe relic rewards.

- `src/` is the library, verified with Verus:
  - `text`: character helpers (trimming, blanks, words, decimal notation) and
    `normalize_string`;
  - `database`: the item catalogue built from the item data and the price
    names, fuzzy matching of recognised text (`find_item`), exact lookup and
    set lookup;
  - `config`: configuration, command-line overrides, validation and paths;
  - `settings`: the editable settings form, the settings window's save
    steps and its cache panel;
  - `cache`: decisions of the local price/item cache (paths, when to
    download, what a server response means and what to store, status
    messages);
  - `main_ui`: state shared between the main window and the detection worker,
    and what the main window does when the window title is edited;
  - `triggers`: recognising reward screens in the game log;
  - `error`: error kinds.
- `app/` is the program around it: configuration files, downloads, file
  access, the game log and hotkey watchers, and loading the item data.
- `tests/` exercises the library.
