use vstd::prelude::*;

use crate::domain::{Downloader, Video};

verus! {

/// Hands a request to a downloader, which decides how the download is done.
pub struct DownloadVideoUseCase<'a, D: Downloader + ?Sized> {
    pub downloader: &'a D,
}

impl<'a, D: Downloader + ?Sized> DownloadVideoUseCase<'a, D> {
    /// Runs the download once and returns the downloader's result as it is.
    pub fn execute(&self, video: &Video) -> (r: Result<(), String>)
        ensures
            call_ensures(D::download, (self.downloader, video), r),
    {
        self.downloader.download(video)
    }
}

} // verus!
