/// The state of all inputs, and when each was last pressed and released.
pub mod input_state;
/// The keys and buttons that the engine knows.
pub mod inputs;

pub use input_state::InputState;
pub use inputs::{Input, Keyboard, Mouse};
