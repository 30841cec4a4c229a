# tile_render

A scrolling tile viewer drawn with Vulkan. The verified library (`src/`) holds
the viewer's logic: the tile map (`area`), the per-frame camera state, the
visible tiles and the letterboxed blit rectangles (`s_render`), the choice of
the graphics queue family (`device`), the decisions of the presentation loop
(`present`), the game server's answers to pings (`server`, `common`) and the
decoding of the tile set (`texture`, through the `image` crate).

`app/` is the program around it: window, Vulkan device, swapchain, shaders,
command buffers and the actix actor, calling the library for every decision.
The tile set is read at run time from `res/tiles.png`.
