# cef

The bookkeeping of a small Chromium Embedded Framework (CEF) application,
verified with Verus.

CEF holds the objects an embedder hands it (the application object, the
browser process handler, the client and its handlers, view and window
delegates) by reference count, and calls back into them. `src/` keeps, for
each of these objects, the table of callback slots it fills, its link back to
its owner and its reference count, and takes the decisions of the callbacks:

- `ref_count`: the counting protocol (`add_ref`, `release`, `has_one_ref`,
  `has_at_least_one_ref`) and the release of every reference on tear-down.
- `application`: the application object, the browser process handler (which
  opens the first browser and serves the default client), and the delegates
  of browser views and top level windows.
- `handler`: the client, the display, life span, load and render handlers,
  the list of open browsers kept by the life span handler, and the page shown
  when a load fails.
- `decimal`: integers written in decimal, for that page.
- `lib.rs`: the settings and start-up decisions of CEF itself.

`app/` is the part that talks to CEF through its C API: it builds the C
tables from the library's slot tables, routes CEF's calls to the library and
performs the calls into CEF that the library decides on.
