//! Offscreen browser-surface compositor.
//!
//! An embedded browser engine renders into an offscreen framebuffer whose
//! backing texture a host renderer samples as an ordinary material. This
//! crate is the lifecycle and event-routing layer between the two: it owns
//! the shared surface state (dimensions, target texture, framebuffer pair),
//! drives framebuffer setup and teardown against a modeled GPU object table,
//! and turns host events into engine navigation and repaint commands.
//!
//! All GPU and engine work is expressed as commands appended to explicit
//! logs; an embedder replays those logs onto the real graphics context and
//! engine instance.

pub mod bundle;
pub mod gpu;
pub mod handle;
pub mod servo_size;
pub mod servo_url;
pub mod system;
pub mod window;

pub use crate::bundle::ServoUiBundle;
pub use crate::gpu::GpuCall;
pub use crate::gpu::GpuModel;
pub use crate::gpu::GpuStatus;
pub use crate::handle::EngineCommand;
pub use crate::handle::NavigationError;
pub use crate::handle::ServoHandle;
pub use crate::servo_size::ServoSize;
pub use crate::servo_url::ServoUrl;
pub use crate::system::HostEvent;
pub use crate::system::ServoUiSystem;
pub use crate::system::Surface;
pub use crate::window::Coordinates;
pub use crate::window::ServoWindow;
