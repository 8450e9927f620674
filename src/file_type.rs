use vstd::prelude::*;

verus! {

/// A container or codec that the command line lets the user pick.
#[derive(Clone, Copy, Debug, PartialEq, Eq, Structural)]
pub enum FileType {
    Mp4,
    Webm,
    Mp3,
    M4a,
    Wav,
}

/// The name under which the delegate tool knows each file type.
pub open spec fn file_type_name(t: FileType) -> Seq<char> {
    match t {
        FileType::Mp4 => "mp4"@,
        FileType::Webm => "webm"@,
        FileType::Mp3 => "mp3"@,
        FileType::M4a => "m4a"@,
        FileType::Wav => "wav"@,
    }
}

impl FileType {
    pub fn as_str(&self) -> (r: &'static str)
        ensures
            r@ == file_type_name(*self),
    {
        match self {
            FileType::Mp4 => "mp4",
            FileType::Webm => "webm",
            FileType::Mp3 => "mp3",
            FileType::M4a => "m4a",
            FileType::Wav => "wav",
        }
    }
}

} // verus!
