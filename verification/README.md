# workspace_db

Operations on the tables of a workspace service: workspaces, their members, invitations,
permissions, and views that workspaces publish.

- `src/` is the verified library.
  - `statement` and `sql`: what is sent to the database server for each operation, the text and
    the values bound to it.
  - `outcome`: what is made of the server's reply.
  - `tables`: the tables held in memory, and `workspace`, `member`, `invitation`, `permission`,
    `publish`: the operations carried out on them, as the statements ask for.
  - `laws`: what holds of several operations together, such as what is read back of what was
    written.
  - `relation`, `lemmas`, `id`, `json`, `text`, `error`: what these are made of.
- `app/` holds the operations on a PostgreSQL server, through `sqlx`: each sends a statement of the
  library and hands it the reply.
- `tests/` runs the library.

What is proved of the operations is proved of the tables held in memory. Values that a server fills
in by itself (defaults, generated identifiers, the current time) are arguments there, and of the
tables' constraints only the two keys that the statements name are stated, as
`Tables::keys_hold`. That a server carries out the statements in the same way is not proved.
