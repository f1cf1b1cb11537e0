# bevy_widget

The text widget of a UI, split in two:

- `src/` (verified with Verus): `text::text_constraint`, the rule by which a
  node's minimum, preferred and maximum sizes bound its text block;
  `text_queue`, the queue of text entities awaiting layout and the decisions
  of a layout pass (which entities a frame queues, what becomes of each one
  after its layout attempt), with the law that a pass keeps exactly the
  entities whose font was missing, in order; the plugin types and the UI
  system labels.
- `app/`: the engine side. Plugins' `build`, the `text_system` that runs the
  queue against the ECS and the text pipeline, the scale factor arithmetic,
  `UiScale` and `TextBundle`.
