//! Names and addresses of uploaded files.

use vstd::prelude::*;
use crate::ids::{is_v4, new_uuid, uuid_text, uuid_to_string};
use crate::text::join2;

verus! {

/// The key of an uploaded file: its identifier, a dash, then the file's name.
pub open spec fn object_key_text(id: u128, name: Seq<char>) -> Seq<char> {
    uuid_text(id) + "-"@ + name
}

/// The key under which the file `name` is stored with identifier `id`.
pub fn object_key(id: u128, name: &str) -> (k: String)
    ensures
        k@ == object_key_text(id, name@),
{
    let prefix = join2(uuid_to_string(id).as_str(), "-");
    join2(prefix.as_str(), name)
}

/// A fresh key for the file `name`: a random version 4 identifier, whose
/// random bits the random number generator decides, before the name.
pub fn new_object_key(name: &str) -> (k: String)
    ensures
        exists|id: u128| is_v4(id) && k@ == object_key_text(id, name@),
{
    let id = new_uuid();
    object_key(id, name)
}

/// The address of an object without the signature of a pre-signed address:
/// scheme, `://`, authority and path.
pub fn url_without_signing(scheme: &str, authority: &str, path: &str) -> (u: String)
    ensures
        u@ == scheme@ + "://"@ + authority@ + path@,
{
    let a = join2(scheme, "://");
    let b = join2(a.as_str(), authority);
    join2(b.as_str(), path)
}

} // verus!
