use vstd::prelude::*;

verus! {

/// What the user asked for on the command line.
pub struct Inputs {
    /// The search term of the clip that follows the clock clip; without one
    /// only the clock clip is made.
    pub query: Option<String>,
    /// A caption for the searched clip instead of "time for <query>".
    pub custom_text: Option<String>,
    /// How many of the leading search results the clip is picked from.
    pub considered_gifs: u8,
    /// Keep the file local instead of uploading it. The pipeline does not
    /// read this flag: every run uploads.
    pub no_upload: bool,
    /// Show the file in the system's file browser when done.
    pub explorer: bool,
    /// Work in a directory beside the current one. The pipeline does not
    /// read this flag: the caller picks the work directory.
    pub relative: bool,
    /// Open the file with the default application when done.
    pub open: bool,
    /// Seconds to add to the current time on the clock caption.
    pub delay: u32,
}

} // verus!
