# lvu

The dialogs of a terminal log viewer as a library: what each layer holds, what an
event does to it, how its frame is laid out and what is drawn, with the
behaviour stated in contracts and proved with Verus.

- `src/geometry.rs`, `input.rs`, `style.rs`, `text.rs`, `width.rs`, `paint.rs`:
  rectangles, keys, colours, texts, display widths, and the things a frame draws.
- `src/component.rs`, `dialog_controls.rs`, `dialog_layout.rs`: what the layers
  share: events and outcomes, bounded queues, buttons and their accelerators, and
  the planning of action rows.
- `src/components/`: the layers. Each has a model, transitions on the model, and
  where it is large a `frame` (wording and layout), a `render` (the picture) and
  `laws` module.
- `src/delight.rs`, `src/details.rs`: the title and the heart, and a record in
  detail.
- `app/`: draws pictures with ratatui and brings in crossterm's events.
- `tests/`: examples with exact values.

A layer never draws, waits or edits text itself. It answers an event with an
outcome or with a step that its host carries out, and a frame with a list of
things to draw. The host supplies the layout of the screen, the line editor and
the wording of sizes and instants.
