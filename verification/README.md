# vkinit

The start-up decisions of a small Vulkan program, verified with Verus.

- `src/` — the library. It decides which physical device is suitable and
  which one is picked (`device`), which queue families serve graphics and
  presentation (`queue`), how the swapchain is configured (`swapchain`),
  which layers, extensions and flags the instance and the logical device
  enable (`instance`, `device`), and at which level a validation message is
  logged (`debug`). `inspect` makes the device check, the device search and
  the queue-family lookup one Vulkan query at a time, in the order the
  decisions need them, and proves that this reaches the same outcomes.
  `vulkan` holds the values read from `vulkanalia`; `laws` states
  properties that hold across these decisions.
- `app/` — the program: the window, the event loop and the Vulkan calls. It
  answers the library's queries, hands it plain values, and carries out
  the plans it returns.
- `tests/` — tests of the library on concrete values.
