# ratatui_table

The selection and scroll state of a terminal table widget, and the rule that decides which
columns make room for the highlight symbol, written in Verus with every operation proved
against its contract.

- `src/table/state.rs`: `TableSelection` and `TableState`. A selection is modelled by its two
  axes (`row_of`, `column_of`); every setter, builder, navigation step and `clamp` is specified
  as a transformation of those axes and of the offset. The laws (component setters commute,
  clamping is idempotent and keeps what fits, next/previous and scroll round trips) are the
  `lemma_*` proof functions at the end of the file.
- `src/table/highlight_placement.rs`: `HighlightPlacement`, its slot mask, and the names it is
  written and parsed under, with the layout laws.
- `src/convert.rs`: the contracts of std's two blanket conversions into `Option` that the
  generic builders rely on.
- `app/lib.rs`: serde/strum twins of the library types, with conversions both ways.
- `tests/`: the behaviour checks, including one test per law on concrete values.
