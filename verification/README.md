# whale_widget

The logic of a small desktop widget that shows an account balance, keeps a
daily ledger of what was spent, and pops up speech bubbles when clicked.

- `src/paths.rs`: where the settings and ledger files live beside the program.
- `src/config.rs`: the settings, their defaults, and how a stored file is taken up.
- `src/calendar.rs`: ledger dates (`%Y-%m-%d`) read as day numbers; today's date.
- `src/ledger.rs`: the usage ledger: lookup, recording a day's amount, pruning
  to the retention period, and the laws that tie them together.
- `src/widget.rs`: the widget's state machine: when to ask for the balance,
  the bubble, the menu.
- `app/`: the window, drawing, files, JSON and network around the library.

Amounts are `f64`; the library carries them as bit patterns and the program
around it does the arithmetic.
