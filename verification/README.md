# mwmd

A verified core for a Markdown-to-WeChat typesetting tool. WeChat's article
editor keeps only inline `style` attributes, so every element is rendered with
its theme style inline, images, formulas and Mermaid diagrams become numbered
placeholders sharing one sequence, and the result is
copied to the clipboard in the Windows CF_HTML format.

Layout:

- `src/` — the library, verified with Verus:
  - `theme.rs` — the preset catalogue, layouts, colour tokens, the visual
    editor's specifications, global parameters and the dark-background test;
  - `render.rs` — pulldown-cmark events to inline-styled HTML, the standalone
    export document;
  - `highlight.rs` — syntect highlighting of fenced code, with code sets a
    caller can load once and keep;
  - `text.rs` — escaping, trimming, decimal numerals;
  - `clipboard.rs` — the CF_HTML and UTF-16 clipboard payloads;
  - `workspace.rs` — tree listing order, Markdown and hidden-entry tests,
    full-text search over documents;
  - `config.rs` — settings, preference merging, workspace roots, theme
    resolution, safe external links;
  - `laws.rs` — properties that span functions.
- `tests/` — tests of the library on concrete values.
- `app/` — the desktop shell: settings file, directory walking, file
  operations, the directory watcher and the Windows clipboard.
