//! The decision taken once both records are known.

use crate::json::{as_members, json_text_of, string_object_of};
use crate::record::{
    encode_local_record, local_fields_of, local_object, rewritten_record, stable_channel,
    LocalVersionRecord, RemoteVersionInfo,
};
use vstd::prelude::*;

verus! {

/// What to do with the local file.
#[derive(Debug, PartialEq, Eq)]
pub enum Decision {
    /// The versions agree: the file is left as it is.
    UpToDate,
    /// The versions differ: the file is replaced by these bytes.
    Rewrite(Vec<u8>),
}

/// Compares the versions exactly, as strings. Where they differ, the local file
/// is to be replaced by a record on the stable channel with the feed's version;
/// its bytes depend on that version alone.
pub fn plan_update(local: &LocalVersionRecord, remote: &RemoteVersionInfo) -> (r: Decision)
    ensures
        local.version@ == remote.version@ <==> r is UpToDate,
        local.version@ != remote.version@ ==> (r matches Decision::Rewrite(text) && text@
            == json_text_of(local_object(stable_channel(), remote.version@)) && string_object_of(text@)
            == Some(as_members(local_object(stable_channel(), remote.version@))) && local_fields_of(
            text@,
        ) == Some((stable_channel(), remote.version@))),
{
    if local.version == remote.version {
        return Decision::UpToDate;
    }
    let rec = rewritten_record(remote.version.clone());
    Decision::Rewrite(encode_local_record(&rec))
}

} // verus!
