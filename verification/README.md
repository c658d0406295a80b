# canvas_lms_api

A client for the Canvas LMS REST API.

The library (`src/`) builds every request the client sends (method, URL below
the API root, `Authorization` header, query, form or JSON payload), reads
Canvas's answers (`Link` headers, paginated bodies, error bodies and status
codes), flattens parameters into Canvas's bracket notation, and drives
paginated listings one step at a time. Each public function states what it
returns in its contract, and the contracts are proved; the laws that span functions (listing order, page
size, whole-listing runs, parameter flattening, base URL normalization) are
proof functions.

- `src/text.rs`, `src/json.rs`: decimal text, trimming and splitting; the JSON
  values the library reads and builds.
- `src/params.rs`: bracket-notation parameters and form building blocks.
- `src/urls.rs`: URL parsing and joining through the `url` crate.
- `src/http.rs`, `src/error.rs`: requests, the requester, status checks, errors.
- `src/pagination.rs`: `Link` headers, page bodies, and `PageStream`.
- `src/client.rs`, `src/graphql.rs`, `src/resources/`: the entry point and the
  calls of every resource.

`app/` sends the requests with `reqwest`, decodes JSON with `serde`, runs
listings to completion (or as a `futures::Stream`), and offers a blocking
client.
