# popup_view

The decision logic of a desktop panel popup that shows AI-tool usage quotas
per provider and account: which header buttons appear, which provider tabs the
tab strip shows and how it pages, which account card and pager are shown, which
status texts, badges and usage cards appear, and how usage windows are grouped.

The functions in `src/` are verified with Verus against contracts stated over
spec functions; the laws that relate several functions are proof functions.
The exceptions are the three calls into `chrono` in `src/clock.rs` (reading
the system clock, subtracting two instants, formatting a date), whose
contracts are assumed, together with the two names they give to chrono's
results.

- `src/model.rs` — providers, accounts, snapshots and the application state.
- `src/paging.rs` — the account pager and the provider tab strip's viewport.
- `src/popup.rs` — header, tab strip, tab looks, page body and the whole popup plan.
- `src/detail.rs` — the provider page: status texts, usage cards, window groups,
  badges, the account header and pager, "updated" labels.
- `src/text.rs`, `src/phrases.rs` — white space, decimal notation, joining, and
  the English texts.
- `src/clock.rs` — the calls into `chrono` (clock, time differences, date format).
- `app/` — drawing the plans with libcosmic, and the floating-point styling.
