//! Terminal progress spinners: a catalog of named animations and the state
//! machines that drive one of them.

pub mod error;
pub mod event;
pub mod glyphs;
pub mod laws;
pub mod render;
pub mod spinner;
pub mod spinners;
pub mod text;

pub use error::{SpinnerError, SpinnerErrorView};
pub use event::{Event, EventView};
pub use render::{LoopView, RenderLoop, Tick, TickView};
pub use spinner::{Finish, Spinner, SpinnerView};
pub use spinners::{Frames, Spinners};
