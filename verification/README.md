# wm

The decisions by which a tiling window manager keeps the desktop in step with
its own state, written and proved in Verus.

* `src/` is the verified library. It holds the state as plain values and decides
  what is to be done. Where a decision rests on something that only the system
  knows, it names the next question, and decides again with the answer.
  * `platform_sync`, `redraw`, `redraw_order`, `reposition`, `effects` and
    `fullscreen` carry changes over to the system: focus, stacking, placement,
    visibility, effects, and what the shell is told of fullscreen windows.
  * `handle_window_focused`, `focus_retry` and `reconcile_focus` deal with focus
    that moves or is lost outside the window manager.
  * `reconcile_taskbar` puts a taskbar back that was raised over a fullscreen
    window.
  * `focus_window_in_cycle` moves focus through the windows of a workspace.
  * `state`, `config`, `native_window_properties`, `rect`, `probe`, `text` and
    `error` hold what the others share.
* `app/` is ordinary Rust that runs the decisions against a desktop, which is a
  trait there.
* `tests/` runs the library on concrete values.

Proof functions whose names begin with `law_` state what holds across calls.
