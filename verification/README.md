# hltvapi

An unofficial API for hltv.org: it scrapes upcoming matches and news articles,
stores them in SQLite, and serves them as JSON, an iCalendar file and an RSS feed.

- `src/` is the verified library (Verus): the records and their conversions and
  listings (`models`), reading fixture cards and article pages and writing the
  calendar and the feed (`services`), the handlers' decisions (`handlers`), and
  the text and time building blocks they rest on (`text`, `time`, `html`).
- `app/` is the web service around it: the HTTP server, the database, the
  scheduled scraping jobs and file output.
- `tests/` exercises the library on concrete pages and records.

The service reads its page templates and static files from `web/dist` and writes
`calendar.ics` and `feed.xml` into `static`.
