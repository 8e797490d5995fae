# roc_desk_sql

The SQL workbench of roc_desk: data sources, statements and their results,
table editing, export and import, and the SQL assistant.

- `src/` is the library, written in Verus and verified: statement
  classification, the SQL text it builds (paging, row edits, ALTER TABLE,
  catalogue queries, cancel statements), the rendering of driver values as
  cells, result sets under a row limit, CSV/JSON export and CSV import as
  state machines, the stored-row conversions, credential planning, the
  workspace path guard, the id tables of running queries, transfer jobs,
  sessions and switched databases, and the assistant's turn, tool list,
  tool texts and prompts.
  Each public function states its result in its `ensures`; the laws that
  relate several functions are public proof functions.
- `app/` is ordinary Rust around it: the SQLite store, the MySQL,
  PostgreSQL and SQL Server drivers, the background query and transfer
  tasks, the workspace files, and serialisable copies of the library's
  types.
- `tests/` exercises the library through its public interface.
