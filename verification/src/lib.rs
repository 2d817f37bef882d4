//! A tabbed project browser: the state, rules and screen model of a terminal
//! dashboard that lists project directories as tabs, shows the entries of the
//! selected project, and prepares the command that opens an entry in an editor.

pub mod clock;
pub mod entry;
pub mod launch;
pub mod layout;
pub mod names;
pub mod path;
pub mod screen;
pub mod state;
pub mod text;
