//! Small helpers of the management and OpenAI routes: three-state fields
//! of partial updates, and ids parsed from paths and queries.

use vstd::prelude::*;
use crate::errors::{LLMurError, bad_request};
use crate::ids::{VirtualBatchId, VirtualFileId};
use crate::text::to_owned;
use crate::uuid_text::{uuid_parse, uuid_parse_str};

verus! {

/// A field of a partial update: absent (leave as is), `null` (clear), or a
/// value (set).
#[derive(Clone, Debug, PartialEq)]
pub enum NullableField<T> {
    Missing,
    Value(T),
    Null,
}

impl<T> Default for NullableField<T> {
    /// An absent field.
    fn default() -> (r: Self)
        ensures
            r is Missing,
    {
        NullableField::Missing
    }
}

/// The update a field asks for: `None` to leave the stored value,
/// `Some(None)` to clear it, `Some(Some(v))` to set it.
pub open spec fn spec_update<T>(f: NullableField<T>) -> Option<Option<T>> {
    match f {
        NullableField::Missing => None,
        NullableField::Value(v) => Some(Some(v)),
        NullableField::Null => Some(None),
    }
}

impl<T> NullableField<T> {
    /// The update this field asks for.
    pub fn into_option(self) -> (r: Option<Option<T>>)
        ensures
            r == spec_update(self),
    {
        match self {
            NullableField::Missing => None,
            NullableField::Value(value) => Some(Some(value)),
            NullableField::Null => Some(None),
        }
    }
}

/// The update a field asks for.
pub fn normalize_nullable<T>(value: NullableField<T>) -> (r: Option<Option<T>>)
    ensures
        r == spec_update(value),
{
    value.into_option()
}

/// A parsed id, or a bad request with `message` where the text held none.
pub fn id_or_bad_request(parsed: Option<u128>, message: &str) -> (r: Result<u128, LLMurError>)
    ensures
        match parsed {
            Some(v) => r == Ok::<u128, LLMurError>(v),
            None => r matches Err(e) && e is BadRequest && bad_request(e) == message@,
        },
{
    match parsed {
        Some(v) => Ok(v),
        None => Err(LLMurError::BadRequest(to_owned(message))),
    }
}

/// The UUID written in `value`, or a bad request with `message`.
pub fn parse_bad_request(value: &str, message: &str) -> (r: Result<u128, LLMurError>)
    ensures
        match uuid_parse(value@) {
            Some(v) => r == Ok::<u128, LLMurError>(v),
            None => r matches Err(e) && e is BadRequest && bad_request(e) == message@,
        },
{
    id_or_bad_request(uuid_parse_str(value), message)
}

/// The batch id written in a path or query.
pub fn parse_virtual_batch_id(value: &str) -> (r: Result<VirtualBatchId, LLMurError>)
    ensures
        match uuid_parse(value@) {
            Some(v) => r == Ok::<VirtualBatchId, LLMurError>(VirtualBatchId(v)),
            None => r matches Err(e) && e is BadRequest && bad_request(e)
                == "Invalid batch id value."@,
        },
{
    proof {
        reveal_strlit("Invalid batch id value.");
    }
    match parse_bad_request(value, "Invalid batch id value.") {
        Ok(v) => Ok(VirtualBatchId(v)),
        Err(e) => Err(e),
    }
}

/// The file id written in a path or query.
pub fn parse_virtual_file_id(value: &str) -> (r: Result<VirtualFileId, LLMurError>)
    ensures
        match uuid_parse(value@) {
            Some(v) => r == Ok::<VirtualFileId, LLMurError>(VirtualFileId(v)),
            None => r matches Err(e) && e is BadRequest && bad_request(e)
                == "Invalid file id value."@,
        },
{
    proof {
        reveal_strlit("Invalid file id value.");
    }
    match parse_bad_request(value, "Invalid file id value.") {
        Ok(v) => Ok(VirtualFileId(v)),
        Err(e) => Err(e),
    }
}

} // verus!
