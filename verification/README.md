# vulkan_renderer

The host side of a Vulkan renderer for compositors, verified with Verus.

A renderer spends most of its care on questions that no device answers for it. Who owns an image
that another process may hold? Which barrier hands it over, and what does the image look like
afterwards? May the buffer that a client has just committed be sampled at all, and who signals its
release point if something fails half way? Which pixels does a damage list leave to draw? The
library answers these questions as functions over plain values, and every answer has a contract.

What only a device or the kernel can do is planned here and carried out elsewhere: a function says
what has to be done next, and another one takes the outcome. That goes for waiting, too: the library
says who waits for which fence, and what follows if the wait is interrupted. Likewise a release point
counts as settled only once somebody says that it was signaled; until then it stays owed.

## Layout

| Part | Modules |
| --- | --- |
| Vocabulary | `error`, `format`, `geometry`, `identity`, `vk`, `extensions` |
| What a device can do | `capabilities`, `device`, `dmabuf_image` |
| Images and who owns them | `image`, `image_sync`, `shared_sync`, `barrier`, `commands`, `release` |
| Buffers, fences and points | `dmabuf`, `sync`, `syncobj`, `transfer` |
| Drawing | `damage`, `uv`, `frame`, `copy`, `target`, `sampling` |
| Importing the buffers of clients | `evidence`, `external_state`, `policy`, `import`, `wayland` |
| Surfaces and what is owed for them | `surface`, `transaction`, `lifecycle`, `history`, `obligation`, `cleanup` |
| The renderer itself | `renderer`, `loopback`, `fixtures` |

Textures are references to device images. What happens to an image is kept by the renderer, by the
handle of the image, so that all clones of a texture see it; a surface keeps the textures of each
renderer apart. Identities come from one `IdentitySource`, of which a program makes one.

Properties that span several functions are stated and proved as `law_...` proof functions next to
the code that they are about.

`app/` holds what talks to the machine: timelines of the kernel, a Wayland display, the list of
devices, and the search for one whose buffers can be both drawn into and sampled from. Recording
commands and allocating images is left to whoever brings a device: the traits there say what is
needed.

## Numbers

Colors and alphas are the bits of 32 bit floats, and parts of a texture are counted in fractions of a
texel. No rounding happens in the library.

Only the names of the device extensions are taken on trust; they come from `ash`.
