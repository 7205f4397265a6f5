# lemmatizer

Verified bookkeeping for dictionary-based lemmatization in a search engine,
written in Verus.

`src/` is the library, verified throughout but for three calls whose
contracts are taken on trust: `text::string_from_chars` (std's
`FromIterator` for `String`), `order::sort_codes` (std's `slice::sort_by`) and
`language::charabia_canonical_code` (charabia's `Language::from_code` and
`Language::code`). Its modules:

- `generations` — the generation of every dictionary of a bundle, kept in
  ascending order of code;
- `mismatch` — how the dictionaries that filled an index differ from the
  loaded ones, and the text that says so;
- `checks` — checking an index against the loaded dictionaries once per
  index;
- `lemmatizer` — the dictionaries a process knows of, the generations it
  compares against and the ones it stamps an index with;
- `resolve` — which candidate language a word belongs to, asked of the
  dictionaries one at a time;
- `forms` — the forms of a word that go into an index;
- `language`, `locales` — languages, locales and rules that assign locales to
  attributes;
- `text`, `order` — text helpers.

`app/` holds what needs the process: the memory-mapped dictionaries, the
process-wide lemmatizer, the bundle files, per-thread recording and logging.
`tests/` exercises the library.
