# scf_next

A controller overlay: it renders a virtual controller on screen and animates
its buttons, triggers, sticks, touchpads and capacitive sensors from live
input (SDL gamepads and joysticks, keyboard and mouse). Profiles are TOML
files (`controller.toml`) with images beside them.

`src/` is the verified library (Verus):

- `types`, `resolve`: the profile model and how a profile is loaded —
  defaults applied, `reference` followed button by button.
- `modes`, `devices`: hardware ids (`{:04x}`), mode detection, and which
  devices a profile may open, handed out one at a time (strict VID/PID
  matching against every pair the profile declares).
- `gamepad`: the state the overlay shows, built from device readings;
  keyboard/mouse fill; gamepad mapping button count.
- `input`, `kbm`: key and mouse-button codes, keyboard and mouse state from
  listener events or evdev devices, and which evdev devices to use.
- `scan`: how directories are listed in the menu, and in what order.
- `image`: `data:` URLs for images (base64 crate).
- `toml_doc`: setting a profile's paint color in place (toml_edit).
- `text`, `order`: string comparison and search, and the orders used above.
- `state`, `slots`: device handles, which device a poll reads and when a
  handle is closed, and the loaded profile as the frontend sees it.

`app/` is the program around it: SDL bindings and polling, the evdev or
rdev input loop, file and directory access, serde copies of the library's
types, the Tauri commands and the file watcher.

Numbers that profiles and devices give as `f32` are held by the library as
the bit pattern of that `f32`; `app/` converts them.
