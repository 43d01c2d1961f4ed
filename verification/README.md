# zed_razor

The core of a Zed extension for Razor files, verified with Verus. It decides
how the HTML, CSS and Roslyn language servers start and what workspace
configuration Roslyn receives; the host (Zed) performs every effect.

- `src/` — the verified library:
  - `extension` — which server an id names, and starting the bundled HTML/CSS
    servers (a copy on `PATH`, or the shared npm package installed once per
    session);
  - `launch`, `roslyn`, `server` — starting Roslyn: a user-configured binary,
    the binary found before, or the newest NuGet package, unpacked once;
  - `razor_build` — the opt-in build of the VS Code Razor extension from a
    Roslyn checkout, and the arguments that load it into Roslyn;
  - `nuget` — the newest version in a NuGet version index;
  - `configuration`, `json` — the workspace configuration, with its laws;
  - `text`, `status` — string functions and host requests.
  Functions that need host effects are state machines: each returns the
  action to perform and takes its outcome as the next event.
- `app/` — the extension itself: it performs the actions against the Zed API.
- `tests/` — tests of the library on concrete values.
