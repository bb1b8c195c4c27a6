//! A small framework for writing plugins for LCDSmartie: the strings that
//! cross the border to the host, and the conversions that make them.
//!
//! LCDSmartie takes and gives strings of at most 255 bytes in the default
//! Windows ANSI code page. `ShortString` is such a string, `AnsiString` one
//! of any length, and `winapi` holds the conversions between UTF-16 and a
//! code page. The conversions themselves are the platform's. Nothing here
//! calls it: a conversion that needs it hands out a `Step::Call`, and is
//! called again with the platform's reply.
pub mod ansi_string;
pub mod errors;
pub mod laws;
pub mod short_string;
pub mod utf16;
pub mod winapi;

pub use ansi_string::AnsiString;
pub use errors::Error;
pub use short_string::ShortString;

use vstd::prelude::*;

verus! {

/// Trait representing the implementation of an LCDSmartie plugin.
///
/// # Important
/// LCDSmartie is single threaded, so none of the functions it calls should take long to run,
/// or the UI will freeze for the user.
///
/// In addition, please remember that **any panic will cause LCDSmartie to crash.**
pub trait Plugin: Sized {
    /// Called by LCDSmartie to initialize the plugin.
    fn new() -> Self;

    /// Developer, as shown in the Setup window in LCDSmartie.
    fn developer(&self) -> &'static str;

    /// Version, as shown in the Setup window in LCDSmartie.
    fn version(&self) -> &'static str;

    /// The documentation shown in the Setup window as samples. Lines should be separated by CRLF.
    /// Lines can be clicked in the UI to insert them in the current screen.
    fn documentation(&self) -> ShortString;

    /// The plugin defined "minimum refresh interval".
    /// LCDSmartie will call your plugin every `max(user_preferences, minimum_refresh_interval_ms)` milliseconds.
    fn minimum_refresh_interval_ms(&self) -> i32;

    /// Function that is called to retrieve data for LCDSmartie through `$dll(<DLL Name>,<fid>,<param1>,<param2>)`.
    /// Errors will be formatted appropriately.
    ///
    /// # Important
    /// LCDSmartie is single threaded, so none of the functions it calls should take long to run,
    /// or the UI will freeze for the user.
    fn function_router(&self, fid: u8, param1: &str, param2: &str) -> Result<ShortString, String>;
}

} // verus!
