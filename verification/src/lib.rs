//! Core logic of a notification-area ("system tray") presence: the shared
//! configuration state, menu-id allocation, the event-dispatch decisions and
//! the builder lifecycle.  The concrete native surface (window, message pump,
//! icon rendering) lives outside this crate, behind the [`Surface`] trait.

mod builder;
mod channel;
mod dispatch;
mod error;
mod laws;
mod state;
mod surface;
mod types;

pub use builder::configured;
pub use builder::WnaBuilder;
pub use dispatch::lemma_loop_stops_only_on_shutdown;
pub use dispatch::Dispatch;
pub use dispatch::loop_step;
pub use dispatch::spec_loop_step;
pub use dispatch::LoopState;
pub use error::Error;
pub use laws::apply_adds;
pub use laws::lemma_balloon_overwrite;
pub use laws::lemma_close_idempotent;
pub use laws::lemma_menu_dispatch_registered;
pub use laws::lemma_menu_dispatch_unregistered;
pub use laws::lemma_menu_ids_monotonic;
pub use laws::lemma_menu_ids_monotonic_over_sequence;
pub use state::Repr;
pub use state::TrayModel;
pub use surface::surface_result;
pub use surface::Surface;
pub use types::Event;
pub use types::Icon;
pub use types::MenuItem;
