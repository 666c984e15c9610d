//! Control core of a terminal media browser: the modal key dispatcher, the
//! application state it drives, the credential cache, and the pure parts of
//! the views, of the sign-in and of the catalog client.

pub mod app_state;
pub mod authenticate;
pub mod colors;
pub mod invariants;
pub mod render;
pub mod text;
pub mod tui;
pub mod utilities;
