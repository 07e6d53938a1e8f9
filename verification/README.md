# cat_recycle_bin

Verified core of a small desktop recycle bin (a cat that swallows files
dropped on it and hands them to the Windows Recycle Bin).

- `src/` — the library, verified with Verus:
  - `settings` — preferences, their defaults, loading and the changes the
    tray menu makes, with the laws that keep the size among the offered ones.
  - `path_guard` — path normalisation, the ancestor test and the recycle
    bin folder test.
  - `recycle_bin` — the drop guard (which dropped paths may be recycled),
    the decisions of the drop handler and the judgement of a finished shell
    operation.
  - `model` — the check of a custom GLB model and its Base64 hand-off.
  - `placement` — where the bin window goes when created or resized.
  - `controls` — tray menu identifiers and check marks.
- `tests/` — tests run against the compiled library.
- `app/` — the Tauri application: windows, tray, files, Win32 shell calls.
