//! Verified core of the Rust bindings to the small C ABI that coreboot layers
//! over the Ada `libhwbase` + `libgfxinit` Intel GMA display library.
//!
//! The library holds what the bindings decide by themselves: the connector
//! port encoding of `libgfxinit.h`, the meaning of the status codes that the
//! ABI hands back, the framebuffer description and its stride arithmetic,
//! the store that keeps the last framebuffer announced by the Ada side, and
//! the layout of the bundled Ada source trees.  The raw ABI calls themselves
//! live outside the library.

pub mod framebuffer;
pub mod port;
pub mod sources;
pub mod status;

pub use framebuffer::{FramebufferInfo, FramebufferState};
pub use port::{InvalidPort, Port};
pub use sources::Sources;
pub use status::{Edid, Error, EDID_BLOCK_LEN, gfxinit_result, read_edid_result};
