use vstd::prelude::*;

verus! {

/// One download request: what to fetch and in which form.
///
/// The request is built once by the caller and only read afterwards.
pub struct Video {
    /// The address of the video or playlist, passed through untouched.
    pub url: String,
    /// The base file name, without extension; `None` lets the tool choose.
    pub output: Option<String>,
    /// A format-selection expression chosen by the user; the translation to
    /// arguments does not read it, the mode and the file type decide the streams.
    pub quality: String,
    /// Whether only the audio stream is wanted.
    pub audio_only: bool,
    /// The wanted container or codec; `None` means the default of the mode.
    pub file_type: Option<String>,
}

/// Playlist selection and error handling for multi-item downloads.
///
/// Every field is forwarded verbatim to the delegate tool, which alone
/// judges whether an index or an item expression makes sense.
pub struct PlaylistOptions {
    /// The first item to download (1-based).
    pub start: Option<String>,
    /// The last item to download (inclusive, 1-based).
    pub end: Option<String>,
    /// A list of indices or ranges, such as `1,3,5-7`.
    pub items: Option<String>,
    /// Whether a failing item lets the remaining items go on.
    pub ignore_errors: bool,
}

impl PlaylistOptions {
    /// Options that select the whole playlist and stop at the first error.
    pub fn none() -> (r: PlaylistOptions)
        ensures
            r.start is None,
            r.end is None,
            r.items is None,
            !r.ignore_errors,
    {
        PlaylistOptions { start: None, end: None, items: None, ignore_errors: false }
    }
}

/// A way of carrying out a download request.
pub trait Downloader {
    fn download(&self, video: &Video) -> Result<(), String>;
}

} // verus!
