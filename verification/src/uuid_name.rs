//! Random names under which uploaded files are stored.

use vstd::prelude::*;

use crate::content_type::{extension, file_extension, lemma_extension_after_dot, lemma_extension_has_no_dot};
use crate::text::{concat_str, push_char};

verus! {

/// A lowercase hexadecimal digit.
pub open spec fn is_lower_hex(c: char) -> bool {
    ('0' as int <= c as int <= '9' as int) || ('a' as int <= c as int <= 'f' as int)
}

/// The hyphenated lowercase text of a version-4 UUID: 36 characters, hyphens at 8, 13, 18
/// and 23, hex digits elsewhere, version digit `4` at 14, and a variant digit of 8, 9, a or
/// b at 19.
pub open spec fn is_uuid_v4_text(s: Seq<char>) -> bool {
    &&& s.len() == 36
    &&& forall|i: int|
        0 <= i < 36 ==> if i == 8 || i == 13 || i == 18 || i == 23 {
            #[trigger] s[i] == '-'
        } else {
            is_lower_hex(s[i])
        }
    &&& s[14] == '4'
    &&& (s[19] == '8' || s[19] == '9' || s[19] == 'a' || s[19] == 'b')
}

/// Calls `uuid::Uuid::new_v4` and its `to_string`. The UUID is random; the contract claims
/// only the text's shape, which the crate's source fixes: the hyphenated lowercase form,
/// with the version and variant bits that `new_v4` sets.
#[verifier::external_body]
fn uuid_v4_text() -> (text: String)
    ensures
        is_uuid_v4_text(text@),
{
    uuid::Uuid::new_v4().to_string()
}

/// A fresh random version-4 UUID, as text.
pub fn generate_uuid_v4() -> (text: String)
    ensures
        is_uuid_v4_text(text@),
{
    uuid_v4_text()
}

/// The stored name of a file: `uuid`, a `.`, and the extension of the uploaded name (the
/// whole uploaded name when it has no `.`).
pub open spec fn stored_name(uuid: Seq<char>, file_name: Seq<char>) -> Seq<char> {
    uuid.push('.') + extension(file_name)
}

/// A stored name keeps the extension of the uploaded name, so both are served as the same
/// MIME type.
pub proof fn lemma_stored_name_keeps_extension(uuid: Seq<char>, file_name: Seq<char>)
    ensures
        extension(stored_name(uuid, file_name)) == extension(file_name),
{
    lemma_extension_has_no_dot(file_name);
    lemma_extension_after_dot(uuid, extension(file_name));
}

/// Joins a UUID and the extension of `file_name` into a stored name.
pub fn new_file_name(uuid: &str, file_name: &str) -> (name: String)
    ensures
        name@ == stored_name(uuid@, file_name@),
{
    let mut name = String::from_str(uuid);
    push_char(&mut name, '.');
    let joined = concat_str(name.as_str(), file_extension(file_name));
    joined
}

} // verus!
