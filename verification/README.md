# nephrite

The decision logic of a small Vulkan front end, verified with Verus.

- `src/` is the verified library: queue family lookup (`queue_family`),
  physical device checks and selection (`device`), instance layer and
  extension planning (`instance`), debug message routing (`debug`), decoding
  and checking the window icon (`icon`), the
  event-handler decisions of the application's life cycle (`lifecycle`) and
  the type-level life-cycle states (`state`). `vkfacts` holds the few facts
  taken from the `vulkanalia` bindings (version packing, flag values,
  extension names), each behind a trusted wrapper; `icon` calls the `image`
  decoder behind one as well.
- `app/` is the program: it loads Vulkan, opens the window with `winit`,
  reads what the library needs from the driver, and carries out the
  library's decisions.
- `tests/` run the library on concrete devices, layer lists and event runs.
