# wdms2prod

A well-log data management service. The library under `src/` holds its
logic, each function with a contract proved by Verus. The calls into
`serde_json`, `jsonschema`, `actix-web`'s status codes and header map, and
`String::from_utf8_lossy`, stand behind small trusted wrappers in `json`,
`core_client` and `extractors`, whose contracts are believed, not proved; each says in its doc
comment what it claims. A schema's answer on a document is not a function of
the two (it may read referenced schema files when it first resolves them), so
the contracts of validation state the outcome for any list of failures that
the selected schema may report on the document (`json::schema_may_report`);
what the library does with that list is stated exactly.

- `record::version` — versions `major.minor.patch` with `*` wildcards:
  reading, writing, and matching a version against a pattern.
- `record::record`, `model::record` — kinds `namespace:source:component:version`,
  and records: JSON documents validated against the schema that their kind
  selects.
- `schema` — the registry of schemas by component and version pattern;
  `schema_prefix` — schemas by kind prefix; `validation` — local paths of
  schema references and descriptions of validation failures.
- `json` — the JSON documents and schemas, carried as `serde_json` and
  `jsonschema` values, and what the record logic reads of them.
- `error` — the service's errors and their HTTP statuses.
- `core_client` — the decisions of the client of the core storage service.
- `extractors` — request headers (actix-web's header map, whose names are
  taken without regard to case), captured or required by name.
- `config` — the settings.
- `text` — character-level helpers: searching, decimal numbers, joining.

`app/` is the HTTP server around the library (actix-web), the HTTP client
(awc), loading of settings (figment) and of schemas from disk, and a few
experiments with data frames (polars). `tests/` exercises the library.
