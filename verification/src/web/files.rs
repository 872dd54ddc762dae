//! Names under which the frontend hands out downloads.

use vstd::prelude::*;
use vstd::string::StringExecFns;

verus! {

pub const FILE_NAME_HEAD: &'static str = "subs_";

pub const FILE_NAME_SEPARATOR: &'static str = "_";

pub const FILE_NAME_TAIL: &'static str = ".srt";

pub const DISPOSITION_HEAD: &'static str = "attachment; filename=\"";

pub const DISPOSITION_TAIL: &'static str = "\"";

/// The name of the file under which a track is downloaded.
pub open spec fn download_file_name_spec(video_id: Seq<char>, lang: Seq<char>) -> Seq<char> {
    FILE_NAME_HEAD@ + video_id + FILE_NAME_SEPARATOR@ + lang + FILE_NAME_TAIL@
}

/// The name of the file under which the track of a video in a language is
/// downloaded.
pub fn download_file_name(video_id: &str, lang: &str) -> (name: String)
    ensures
        name@ == download_file_name_spec(video_id@, lang@),
{
    let mut name = String::from_str(FILE_NAME_HEAD);
    name.append(video_id);
    name.append(FILE_NAME_SEPARATOR);
    name.append(lang);
    name.append(FILE_NAME_TAIL);
    name
}

/// The value of the header that makes a client save a response as a file
/// of the given name.
pub open spec fn content_disposition_spec(file_name: Seq<char>) -> Seq<char> {
    DISPOSITION_HEAD@ + file_name + DISPOSITION_TAIL@
}

/// The value of the header that makes a client save a response as a file
/// of the given name.
pub fn content_disposition(file_name: &str) -> (value: String)
    ensures
        value@ == content_disposition_spec(file_name@),
{
    let mut value = String::from_str(DISPOSITION_HEAD);
    value.append(file_name);
    value.append(DISPOSITION_TAIL);
    value
}

} // verus!
