//! Ctrl-tap IME switching for US keyboards on Windows.
//!
//! A short tap of the left Ctrl key turns the IME off, a short tap of the
//! right Ctrl key turns it on. This crate holds the decisions of that tool:
//! telling the Ctrl keys apart, recognising a tap, choosing how the IME is
//! switched, the tray menu and the command line. The Win32 calls themselves
//! are made by the program around it.

pub mod cli;
pub mod hook;
pub mod ime;
pub mod tray;
pub mod wide;
