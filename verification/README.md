# manager_bot

A Discord server-management bot: per-guild settings stored as JSON files,
slash commands to change them, welcome messages, an automatic role for new
members and a ticket system (private support channels that can be closed,
reopened and deleted).

- `src/` is the library, verified with Verus: the settings store and its
  file paths, the command registrations and the settings each command
  writes, the routing of ticket buttons, ticket channel names and
  permissions, and the texts the bot sends. Proof functions state the laws
  that tie these together (a setting reads back as written, every command
  and button is dispatched by the name it is registered under, closing and
  reopening a ticket only swap its name prefix, ticket numbers give
  distinct channel names).
- `app/` is the bot itself: the serenity client and event handlers, the
  file reads and writes, and the conversions between the library's values
  and serenity's builders.
- `tests/` exercises the library on concrete values.
