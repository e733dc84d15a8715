//! The native command logic of a desktop markdown editor.
//!
//! The editor's window asks its host process for four things: a greeting, the
//! font families installed on the machine, the target of a shortcut file, and
//! the markdown file named on the command line. This library holds what is
//! decided and computed for each of them, on plain values; the process that
//! embeds it talks to the operating system and to the window.

pub mod fonts;
pub mod greeting;
pub mod launch;
pub mod shortcut;
