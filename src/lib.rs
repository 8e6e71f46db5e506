//! A minimal append-only terminal text editor: the buffer model, the key
//! dispatch table, the one-time seeding of the buffer from the loaded file and
//! the cursor placement, each with its contract.

pub mod strings;
pub mod text;
pub mod width;
pub mod event;
pub mod editor;
pub mod laws;
