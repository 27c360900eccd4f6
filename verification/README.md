# wfh_bot

The decision logic of a Telegram bot that books "work from home" days in a
shared Google calendar, verified with Verus.

- `src/` is the verified library:
  - `user_data`: users, their names and the calendar name derived from them;
  - `message_processor`: the command conversation (`/help`, `/whoami`,
    `/setmyname`, `/wfh`), the collection of users, the bookkeeping of
    processed updates and the state to save;
  - `message_processor/dialog_processing`, `simple_dialogs`, `wfh`: the
    dialog engine: single-command dialogs and the multi-step
    work-from-home dialog, and the names dialogs are saved under;
  - `basic_structures`, `events_sender`: calendar dates and moments, the
    events posted to the calendar, and the calls into `chrono`;
  - `post_to_form`: the body of the web-form entry, encoded with `url`;
  - `save_load_state`: the saved form of the state;
  - `text`: string helpers (prefixes, trimming, decimal numbers).
- `app/` is the program around it: configuration, Telegram, the calendar
  and form HTTP calls, files, and JSON.
- `tests/` exercises the library on concrete values.
