# xlibwrapper

The display side of a small X11 window manager, split in two.

* `src/` is a verified library (Verus). For every operation on the display
  it computes the exact list of Xlib requests to send (`request::XRequest`),
  and it decides what the replies and events mean: window types, dock
  struts, WM protocols, the killing of clients, and the decoding of raw
  events into `event::Event`. `request` models what the requests do to
  window properties (as Xlib hands items over on a 64-bit machine), key and
  button grabs, cursors and interned atoms; `laws` proves, over that model,
  what taking over the root window (its properties, key grabs and cursor),
  announcing desktops, focusing, grabbing and ungrabbing, and keeping the
  client list do. The client list is written as window ids.
* `app/` holds the connection itself: it opens the display with `x11-dl`,
  performs the planned requests, and reads replies and events back into the
  plain values the library takes.

Modules of the library: `xproto` (protocol numbers), `types` (plain values),
`request` (requests and the property model), `event` (event decoding),
`keys` (grabbed keys and modifier sets), `util` (string and list helpers),
`wrapper` (the operations), `laws` (proofs across operations).
