# warp_app

Verified core of two pieces of the Warp application, written in Verus.

- `src/text.rs`: substring search over the characters of a string, proved
  against `has_substr`.
- `src/file_invalidation.rs`: how a failed file invalidation of a local git
  repository is classified from its error text (`kind_for_message`), described
  and judged actionable; the error type keeps its kind equal to the kind of its
  text as a type invariant.
- `src/tab_group.rs`: the tab group model (fresh random ids, new groups untitled
  and expanded).
- `app/`: the queue glue that needs `warp_core`, `thiserror` and the diff state
  model of the application.
