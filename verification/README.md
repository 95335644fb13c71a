# tokenx

The verified core of tokenx, a terminal interface and command line for
token-usage reports. Verus checks every function under `src/`: the
library's own functions against their contracts, and every call into
`unicode-width`, `chrono` and std against the contract of a small trusted
wrapper, which says what those crates document and is not itself proved.

- `src/text.rs`, `src/strings.rs`: measuring, truncating and padding text
  by terminal cells.
- `src/intent.rs`: decoding key presses into intents and the actions they
  need.
- `src/cli.rs`, `src/dates.rs`: command-line values, calendar dates and
  date ranges.
- `src/date_display.rs`, `src/display_labels.rs`, `src/message.rs`:
  dates, clock times and labels as catalog messages for the edge to look up.
- `src/issue.rs`, `src/subscription_*.rs`, `src/helpers.rs`: Subscription
  diagnostics, the usage cache envelope and the Subscription panel.
- `src/hourly.rs`, `src/achievements.rs`, `src/portraits.rs`,
  `src/startup.rs`: the hourly table window and the columns it offers to
  the layout, achievement ladders, portraits,
  and start-up decisions.
- `src/pricing.rs`, `src/pricing_cache.rs`, `src/order.rs`: pricing sources,
  the pricing cache's freshness policy, and ordering by key.
- `src/catalog.rs`: the locale catalog format and its consistency checks.

`app/` holds the I/O around the core: files, the clock, the terminal,
the keychain and environment, JSON encoding, and the floating-point parts
of the Subscription panel. `tests/` exercises the library on concrete
values.
