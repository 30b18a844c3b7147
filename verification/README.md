# digital_server

The verified core of a personal web service (a profile page backed by
PostgreSQL and an object store) and of its Telegram bot, which greets
members and talks with them through a chat model.

- `src/` is the library, verified with Verus: settings and environments,
  the profile's grouping of jobs by company, the HTTP route table, error
  answers, the preparation of the database, and every decision the bot
  makes (which handler answers a message, the plan of each command and
  membership change, and the step-by-step answering of a message through
  the chat model, with its history in the chat log).
- `app/` runs it: reads settings, talks to PostgreSQL, the object store,
  Telegram and the chat model, and carries out the plans the library
  returns.
- `tests/` exercises the library on concrete values.
