//! The rows of the record store, as they are read and written.

use vstd::prelude::*;
use crate::store::SubtitleId;

verus! {

/// A user, as stored.
#[derive(Debug, PartialEq, Eq)]
pub struct User {
    pub id: String,
    pub username: String,
    pub email: Option<String>,
    pub picture: Option<String>,
}

/// A user to be stored.
#[derive(Debug, PartialEq, Eq)]
pub struct NewUser<'a> {
    pub id: &'a str,
    pub username: &'a str,
    pub email: Option<&'a str>,
}

impl<'a> NewUser<'a> {
    /// The user that the claims of an identity token describe: the subject
    /// is the id, and the first of the e-mail addresses, if there is one,
    /// is the address.
    pub fn from_claims(sub: &'a str, name: &'a str, emails: &'a [String]) -> (user: NewUser<'a>)
        ensures
            user.id@ == sub@,
            user.username@ == name@,
            emails.len() == 0 ==> user.email is None,
            emails.len() > 0 ==> user.email is Some && user.email->0@ == emails@[0]@,
    {
        let email = if emails.len() > 0 {
            Some(emails[0].as_str())
        } else {
            None
        };
        NewUser { id: sub, username: name, email }
    }
}

/// A track, as stored: its key and its entries as one blob of text.
#[derive(Debug, PartialEq, Eq)]
pub struct Subtitles {
    pub video_id: String,
    pub language: String,
    pub subs_json: String,
}

/// A track to be stored.
#[derive(Debug, PartialEq, Eq)]
pub struct NewSubtitles<'a> {
    pub video_id: &'a str,
    pub language: &'a str,
    pub subs_json: &'a str,
}

impl<'a> NewSubtitles<'a> {
    /// The row that stores the given blob under the given key.
    pub fn under(key: &'a SubtitleId, subs_json: &'a str) -> (row: NewSubtitles<'a>)
        ensures
            row.video_id@ == key.video_id@,
            row.language@ == key.language@,
            row.subs_json@ == subs_json@,
    {
        NewSubtitles {
            video_id: key.video_id.as_str(),
            language: key.language.as_str(),
            subs_json,
        }
    }
}

/// A record of the change log, as stored.
#[derive(Debug, PartialEq, Eq)]
pub struct Change {
    pub id: u32,
    /// Milliseconds since the epoch.
    pub time_stamp: i64,
    pub author: String,
    pub changes_json: String,
}

/// A record of the change log to be stored.
#[derive(Debug, PartialEq, Eq)]
pub struct NewChange<'a> {
    /// Milliseconds since the epoch.
    pub timestamp: i64,
    pub author: &'a str,
    pub changes_json: &'a str,
}

} // verus!
