//! The two records: the local build information and the feed's latest release.

use crate::json::{
    as_members, decode_object, describes, describes_strings, encode_string_object, find_member,
    json_text_of, member_view, string_object_of,
};
use vstd::prelude::*;

verus! {

/// What went wrong, by kind.
#[derive(PartialEq, Eq, Structural, Debug, Clone, Copy)]
pub enum UpdateError {
    /// The local file could not be read or written.
    Io,
    /// JSON text could not be read as the expected record, or written.
    Parse,
    /// The update feed could not be reached.
    Network,
}

impl UpdateError {
    /// A short human-readable description of the kind.
    pub fn describe(&self) -> (r: String)
        ensures
            r@ == match self {
                UpdateError::Io => "cannot read or write the local build information"@,
                UpdateError::Parse => "malformed JSON record"@,
                UpdateError::Network => "cannot reach the update feed"@,
            },
    {
        match self {
            UpdateError::Io => "cannot read or write the local build information".to_owned(),
            UpdateError::Parse => "malformed JSON record".to_owned(),
            UpdateError::Network => "cannot reach the update feed".to_owned(),
        }
    }
}

/// The build information that the application reads at start-up.
#[derive(Debug, Clone, PartialEq, Eq)]
pub struct LocalVersionRecord {
    pub release_channel: String,
    pub version: String,
}

/// The latest release that the update feed announces.
#[derive(Debug, Clone, PartialEq, Eq)]
pub struct RemoteVersionInfo {
    pub version: String,
    pub publication_date: String,
}

/// Member of the local record that holds its release channel.
pub open spec fn channel_key() -> Seq<char> {
    "releaseChannel"@
}

/// Member of the local record that holds its version.
pub open spec fn version_key() -> Seq<char> {
    "version"@
}

/// Member of the feed's answer that holds the latest version.
pub open spec fn name_key() -> Seq<char> {
    "name"@
}

/// Member of the feed's answer that holds the publication date.
pub open spec fn pub_date_key() -> Seq<char> {
    "pub_date"@
}

/// The channel that a rewritten local record names.
pub open spec fn stable_channel() -> Seq<char> {
    "stable"@
}

/// The JSON object that stands for a local record.
pub open spec fn local_object(channel: Seq<char>, version: Seq<char>) -> Map<Seq<char>, Seq<char>> {
    Map::empty().insert(channel_key(), channel).insert(version_key(), version)
}

/// The string value of the member `key` of `m`, if it has one.
pub open spec fn string_member(m: Map<Seq<char>, Option<Seq<char>>>, key: Seq<char>) -> Option<Seq<char>> {
    if m.contains_key(key) {
        m[key]
    } else {
        None
    }
}

/// Release channel and version that the object `m` gives a local record.
pub open spec fn local_fields_in(m: Map<Seq<char>, Option<Seq<char>>>) -> Option<(Seq<char>, Seq<char>)> {
    match (string_member(m, channel_key()), string_member(m, version_key())) {
        (Some(channel), Some(version)) => Some((channel, version)),
        _ => None,
    }
}

/// Release channel and version of the local record in `text`, if it holds one.
pub open spec fn local_fields_of(text: Seq<u8>) -> Option<(Seq<char>, Seq<char>)> {
    match string_object_of(text) {
        Some(m) => local_fields_in(m),
        None => None,
    }
}

/// Version and publication date of the feed's answer in `text`, if it holds one.
pub open spec fn remote_fields_of(text: Seq<u8>) -> Option<(Seq<char>, Seq<char>)> {
    match string_object_of(text) {
        Some(m) => match (string_member(m, name_key()), string_member(m, pub_date_key())) {
            (Some(version), Some(date)) => Some((version, date)),
            _ => None,
        },
        None => None,
    }
}

/// The string value of the member called `name`, read from decoded members.
fn string_value(entries: &Vec<(String, Option<String>)>, name: &String) -> (r: Option<String>)
    ensures
        forall|m: Map<Seq<char>, Option<Seq<char>>>|
            #[trigger] describes(m, entries@) ==> member_view(r) == string_member(m, name@),
{
    match find_member(entries, name) {
        Some(i) => {
            let v = entries[i].1.clone();
            proof {
                assert forall|m: Map<Seq<char>, Option<Seq<char>>>| #[trigger] describes(m, entries@) implies member_view(
                    v,
                ) == string_member(m, name@) by {
                    assert(m.contains_key(entries@[i as int].0@));
                }
            }
            v
        },
        None => {
            proof {
                assert forall|m: Map<Seq<char>, Option<Seq<char>>>| #[trigger] describes(m, entries@) implies !m.contains_key(
                    name@,
                ) by {
                    if m.contains_key(name@) {
                        let j = choose|j: int| 0 <= j < entries.len() && entries@[j].0@ == name@;
                        assert(entries@[j].0@ != name@);
                    }
                }
            }
            None
        },
    }
}

impl LocalVersionRecord {
    pub open spec fn fields(&self) -> (Seq<char>, Seq<char>) {
        (self.release_channel@, self.version@)
    }
}

impl RemoteVersionInfo {
    pub open spec fn fields(&self) -> (Seq<char>, Seq<char>) {
        (self.version@, self.publication_date@)
    }
}

/// A local record written as a JSON object reads back with the same release
/// channel and version.
pub proof fn lemma_local_object_reads_back(channel: Seq<char>, version: Seq<char>)
    ensures
        local_fields_in(as_members(local_object(channel, version))) == Some((channel, version)),
{
    reveal_strlit("releaseChannel");
    reveal_strlit("version");
    assert(channel_key().len() != version_key().len());
}

/// Reads the local build information from its JSON text. Members other than
/// the two fields are ignored, whatever they hold; a member named twice counts
/// with its last value.
pub fn parse_local_record(text: &[u8]) -> (r: Result<LocalVersionRecord, UpdateError>)
    ensures
        match local_fields_of(text@) {
            Some(f) => r matches Ok(rec) && rec.fields() == f,
            None => r matches Err(e) && e == UpdateError::Parse,
        },
{
    let entries = match decode_object(text) {
        Ok(entries) => entries,
        Err(_) => return Err(UpdateError::Parse),
    };
    let channel = string_value(&entries, &"releaseChannel".to_owned());
    let version = string_value(&entries, &"version".to_owned());
    match (channel, version) {
        (Some(release_channel), Some(version)) => Ok(LocalVersionRecord { release_channel, version }),
        _ => Err(UpdateError::Parse),
    }
}

/// Reads the feed's answer from its JSON text: `name` is the version. Members
/// other than `name` and `pub_date` are ignored, whatever they hold; a member
/// named twice counts with its last value.
pub fn parse_remote_info(text: &[u8]) -> (r: Result<RemoteVersionInfo, UpdateError>)
    ensures
        match remote_fields_of(text@) {
            Some(f) => r matches Ok(info) && info.fields() == f,
            None => r matches Err(e) && e == UpdateError::Parse,
        },
{
    let entries = match decode_object(text) {
        Ok(entries) => entries,
        Err(_) => return Err(UpdateError::Parse),
    };
    let version = string_value(&entries, &"name".to_owned());
    let publication_date = string_value(&entries, &"pub_date".to_owned());
    match (version, publication_date) {
        (Some(version), Some(publication_date)) => Ok(RemoteVersionInfo { version, publication_date }),
        _ => Err(UpdateError::Parse),
    }
}

/// Writes a local record as JSON text, which reads back as the same record.
/// The text depends on the two fields alone.
pub fn encode_local_record(rec: &LocalVersionRecord) -> (r: Vec<u8>)
    ensures
        r@ == json_text_of(local_object(rec.release_channel@, rec.version@)),
        string_object_of(r@) == Some(as_members(local_object(rec.release_channel@, rec.version@))),
        local_fields_of(r@) == Some(rec.fields()),
{
    let mut entries: Vec<(String, String)> = Vec::new();
    entries.push(("releaseChannel".to_owned(), rec.release_channel.clone()));
    entries.push(("version".to_owned(), rec.version.clone()));
    let ghost want = local_object(rec.release_channel@, rec.version@);
    proof {
        reveal_strlit("releaseChannel");
        reveal_strlit("version");
        assert(entries@[0].0@.len() != entries@[1].0@.len());
        assert forall|k: Seq<char>| #[trigger] want.contains_key(k) implies exists|i: int|
            0 <= i < entries@.len() && entries@[i].0@ == k by {
            if k == channel_key() {
                assert(entries@[0].0@ == k);
            } else {
                assert(entries@[1].0@ == k);
            }
        }
        assert(describes_strings(want, entries@));
        lemma_local_object_reads_back(rec.release_channel@, rec.version@);
    }
    match encode_string_object(&entries) {
        Ok(text) => text,
        Err(_) => {
            assert(false);
            Vec::new()
        },
    }
}

/// The local record after an update to `new_version`: always on the stable
/// channel, whatever channel the file named before.
pub fn rewritten_record(new_version: String) -> (r: LocalVersionRecord)
    ensures
        r.release_channel@ == stable_channel(),
        r.version@ == new_version@,
{
    LocalVersionRecord { release_channel: "stable".to_owned(), version: new_version }
}

} // verus!
