//! Verified core of the Boosty Loader desktop front end: the rules that turn
//! saved settings into a command line for `boosty-downloader`, the checks on
//! those settings, the probing of Python installations, the bookkeeping of a
//! running download and the formatting of the messages that reach the window.

pub mod text;
pub mod version;
pub mod json;
pub mod settings;
pub mod output;
pub mod process;
pub mod runtime;
