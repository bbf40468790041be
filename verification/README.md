# kroki_rs

A diagram rendering service in the style of Kroki: diagram sources arrive over
HTTP (or from the command line), are decoded, handed to a command-line tool
such as `dot`, `d2` or `ditaa`, and the image comes back as SVG, PNG, PDF, text
or WebP.

The library under `src/` holds the service's logic, each function with a
contract proved by Verus:

- `config` — the settings tree, its defaults, environment overrides, cache
  directory resolution;
- `capabilities` — where each tool is looked for;
- `diagrams` — the providers (how each tool is invoked and how its output is
  judged), the provider registry, time limits;
- `server` — request decisions of the diagram endpoint, API key and admin
  authentication, per-client token-bucket rate limiting, per-provider circuit
  breaking, the varying parts of the HTML pages;
- `cli` — WebP format resolution, batch planning, the rendering cache key;
- `browser` — the script and result checks of browser rendering;
- `utils` — payload decoding, font cache naming and size limits, PNG to WebP;
- `text` — verified string helpers the rest builds on;
- `trusted` — the declarations and wrappers through which the library calls
  the standard library and outside crates; their contracts are assumed.

`app/` is the program around it: argument parsing, reading the configuration
file, the axum servers, running tool processes, files and network access, and
metrics. `tests/` exercises the library.
