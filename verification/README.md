# tgdigest

A digest generator for a Telegram channel: it reads the posts of a period,
ranks them by comments, reactions, forwards and views, and renders a digest
page or a set of post cards from HTML templates.

- `src/` is the verified library: the ranking of posts (`top`, with
  `partial_sort` behind a trusted wrapper), the choice of posts by date
  (`post`, `period`), the console summary and its text (`report`, with `chrono` dates behind a trusted wrapper), cards and digest blocks
  (`card`, with icon addresses from `icon`), file names (`page`), text
  replacement (`text`), the checks on configured paths (`paths`, with `path_slash`) and the
  sign-in decisions (`login`).
- `app/` is the command-line program: arguments, configuration, the Telegram
  client, templates, files and the headless browser.
- `tests/` runs the library on concrete values.
