# fiche

A command-line clipper: it scrapes a web page, asks a language model (Groq's
chat API) for a structured summary, and files a Markdown report in a notes
vault.

## Layout

- `src/` — the verified library (Verus).
  - `vault/file_name.rs` — turning a page title into a safe file name
    (character replacement, trimming, reserved device names, the 255-byte cut),
    with the laws that the result is never empty, holds no forbidden or control
    character, fits in 255 bytes and leaves good names alone.
  - `vault/mod.rs` — report templates and their rendering through minijinja,
    report contexts, issue keys found in the vault's project folders.
  - `scrapper.rs` — HTML-to-Markdown conversion through html-to-markdown-rs
    and the page title.
  - `llm/` — summaries, the completion request, and the exchange with the
    service as a state machine.
  - `commands.rs` — a clip (scrape, summarize, write) as a state machine.
  - `config.rs`, `error.rs`, `cli.rs` — settings, errors and the command line.
- `app/` — the program: command-line parsing, environment, HTTP, file system,
  logging; it performs the actions the library's state machines ask for.
- `tests/` — tests of the library on concrete values.
