# archive_site

The verified core of a small publishing site: articles in an Editor.js-style
block format, thematic rubrics, an archive of entries with attached files,
content-addressed uploads, and an administrator session.

- `src/` is the library, verified with Verus: which uploads are accepted and
  how they are named and stored, how editor text is cleaned, how hashes and
  session ids travel as hex text, where requests are redirected, how errors map
  to HTTP statuses, and who passes the administrator guards.
- `app/` is the Rocket web server around it: routes, database queries,
  templates, cookies and files on disk. It hands the library plain values and
  acts on what it returns.
- `tests/` runs the library on concrete values.
