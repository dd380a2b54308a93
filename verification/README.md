# idmrs

Command line downloader for Internet Download Manager (IDM) on Windows, as a
verified library (`src/`) and a thin program around it (`app/`).

- `src/request.rs`: `DownloadMode` and `SendLinkRequest` with its setters.
- `src/com.rs`: the parameters of `SendLinkToIDM2` and the argument list in
  the reverse order that `IDispatch::Invoke` takes.
- `src/config.rs`: the `idm.ini` settings (`DOWNLOAD_PATH` is option `path`
  of section `[download]`), read and written through `rust-ini`.
- `src/window.rs`: picking IDM's main window by its title.
- `src/cli.rs`: the command line's decisions (`--config`, mode, settings,
  requests, clipboard URL).
- `src/text.rs`: character-level string helpers, with `trim` on Unicode
  white space.
- `app/`: argument parsing, clipboard, terminal, the settings file, and the
  COM and window calls (Windows only).

Sending a link (`send_link`) and bringing IDM's window to the front
(`bring_to_top`) are COM and Win32 calls, so they live in `app/`, not in the
library: the library builds the request (`SendLinkRequest`), its call
parameters (`com::send_link_args`) and the `Invoke` argument list
(`com::com_arguments`), and picks the window (`window::find_idm_window`).
