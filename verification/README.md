# ghlog

`ghlog` shows a GitHub user's recent activity as plain text, ANSI-colored
text, Markdown or an HTML page.

```text
ghlog run [OPTIONS] <USERNAME>
  -e, --event-type <EVENT_TYPE>   only these kinds of events (repeatable); the limit applies after filtering
  -l, --limit <LIMIT>             maximum number of events to show, 1 to 300 [default: 20]
  -f, --format <FORMAT>           html, markdown, plain, terminal [default: terminal]
      --html-template <TEMPLATE>  editorial, notebook, terminal, zine [default: terminal]
  -p, --include-private           include private events visible to the token's user
```

The token comes from `GHLOG_TOKEN`, else from `gh auth token`. The HTML
template asked for is read at run time from the directory named by
`GHLOG_TEMPLATES_DIR` (default `assets/templates`): `editorial.html`,
`notebook.html`, `terminal.html` or `zine.html`.

## Layout

- `src/` is the library, verified with Verus: checking the command line
  (`cmds`), the event model and its invariants (`domain`), paging through the
  events API and reading its `Link` header (`service`), how each event is
  described and the four output formats (`output`), and the text helpers they
  rest on (`text`). Calls into `chrono`, `tera` and `reqwest`'s header map go
  through a few trusted wrappers, each documented where it stands.
- `app/` is the program around it: argument parsing with clap, the token,
  the HTTP requests, JSON decoding with serde, and printing.
- `tests/` exercises the library.
