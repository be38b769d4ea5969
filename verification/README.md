# gsr

The controls of a picture browser, verified with Verus: how the focus moves through a
gallery shown as pages of a square grid (`navigator`), which key does what in which mode
(`control`), how typed keys become inputs, completions and actions (`key_input`, `editor`,
`entry_validate`), how actions are named and carried through GIO activations and read back
(`action`), what a control asks of the application (`application`, `controller`) and how a
picture's label is shown (`display`).

`src/` is the verified library. `app/` holds the GTK glue that turns GDK keys and GLib
variants into the library's plain values and back.
