//! An interactive prompt engine: the key model, an in-memory terminal and the
//! renderer that paints frames on it, grapheme-aware text editing, and the
//! prompts built on them: masked input, free text, confirmation, and choice
//! of one or of several items of a list.
//!
//! Each prompt is a state machine over keys. Its contract says, for every
//! script of keys, which answers and failures are possible and what is left
//! on the screen.

pub mod error;
pub mod grapheme;
pub mod key;
pub mod prompts;
pub mod renderer;
pub mod terminal;

pub use error::{InquireError, InquireResult};
pub use key::{Key, KeyCode, KeyModifiers};
pub use prompts::confirm::{ConfirmPrompt, ConfirmStep};
pub use prompts::multiselect::{MultiSelectPrompt, SelectionStep};
pub use prompts::password::{Password, PasswordPrompt, Step};
pub use prompts::select::{SelectPrompt, SelectStep};
pub use prompts::text::{TextPrompt, TextStep};
pub use prompts::{Answer, Prompt};
pub use renderer::Renderer;
pub use terminal::{Line, LineKind, Terminal};
