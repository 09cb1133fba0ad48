//! Surfaces that a script draws.

use crate::conv::{handle_update_js, serialize_handle_update};
use crate::js::JsValue;
use crate::primitive::le_value;
use crate::render::UpdateSharedHandle;
use crate::text::{append_decimal, append_hex, decimal, hex};
use vstd::layout::size_of;
use vstd::prelude::*;
use vstd::string::StringExecFns;

verus! {

/// Reads a number from the bytes it has in memory with `bytemuck::pod_read_unaligned`, which
/// panics unless there are as many bytes as the number has. Whether the lowest byte comes first
/// or last depends on the machine.
#[verifier::external_body]
fn read_usize(bytes: &[u8]) -> (r: usize)
    requires
        bytes@.len() == size_of::<usize>(),
    ensures
        r as nat == le_value(bytes@) || r as nat == le_value(bytes@.reverse()),
{
    bytemuck::pod_read_unaligned::<usize>(bytes)
}

/// Why bytes are no shared handle.
#[derive(Debug, Clone, Copy, PartialEq, Eq, Structural)]
pub enum HandleError {
    /// There are not as many bytes as a handle has.
    Length { length: usize, expected: usize },
    /// The handle would be cut off.
    TooLarge { handle: usize },
}

impl HandleError {
    pub open spec fn text(self) -> Seq<char> {
        match self {
            HandleError::Length { length, expected } => "handle buffer length "@ + decimal(
                length as nat,
            ) + " != size_of::<usize>() "@ + decimal(expected as nat),
            HandleError::TooLarge { handle } => "shared handle "@ + hex(handle as nat)
                + " does not fit in 32 bits; cannot pass without truncation"@,
        }
    }

    /// What went wrong.
    pub fn message(&self) -> (r: String)
        ensures
            r@ == self.text(),
    {
        match self {
            HandleError::Length { length, expected } => {
                let mut text = "handle buffer length ".to_owned();
                append_decimal(&mut text, *length as u64);
                text.append(" != size_of::<usize>() ");
                append_decimal(&mut text, *expected as u64);
                text
            },
            HandleError::TooLarge { handle } => {
                let mut text = "shared handle ".to_owned();
                append_hex(&mut text, *handle as u64);
                text.append(" does not fit in 32 bits; cannot pass without truncation");
                text
            },
        }
    }
}

/// The handle that is shared, if nothing of it is cut off.
pub open spec fn fitted(handle: usize) -> Result<u32, HandleError> {
    if handle <= u32::MAX {
        Ok(handle as u32)
    } else {
        Err(HandleError::TooLarge { handle })
    }
}

/// Narrows a handle. One that does not fit is refused rather than cut off.
pub fn fit_handle(handle: usize) -> (r: Result<u32, HandleError>)
    ensures
        r == fitted(handle),
{
    if handle as u64 <= u32::MAX as u64 {
        Ok(handle as u32)
    } else {
        Err(HandleError::TooLarge { handle })
    }
}

/// Reads a shared handle from the bytes that it has in memory.
pub fn handle_from_bytes(bytes: &[u8]) -> (r: Result<u32, HandleError>)
    ensures
        bytes@.len() != size_of::<usize>() ==> r == Err::<u32, HandleError>(
            HandleError::Length {
                length: bytes@.len() as usize,
                expected: size_of::<usize>() as usize,
            },
        ),
        bytes@.len() == size_of::<usize>() ==> exists|handle: usize|
            {
                &&& handle as nat == le_value(bytes@) || handle as nat == le_value(
                    bytes@.reverse(),
                )
                &&& r == #[trigger] fitted(handle)
            },
{
    let expected: usize = core::mem::size_of::<usize>();
    if bytes.len() != expected {
        return Err(HandleError::Length { length: bytes.len(), expected });
    }
    fit_handle(read_usize(bytes))
}

/// A handle is never changed on its way: it arrives as it is, or is refused.
pub proof fn law_handle_not_truncated(handle: usize)
    ensures
        fitted(handle) matches Ok(narrow) ==> narrow == handle,
        fitted(handle) is Ok <==> handle <= u32::MAX,
{
}

/// The adapter that a surface is made on: none where none was asked for or none was found, and
/// an error where looking for it failed.
pub fn surface_adapter<A, E>(found: Option<Result<Option<A>, E>>) -> (r: Result<Option<A>, E>)
    ensures
        r == (match found {
            Some(Ok(adapter)) => Ok(adapter),
            Some(Err(err)) => Err(err),
            None => Ok(None),
        }),
{
    match found {
        Some(Ok(adapter)) => Ok(adapter),
        Some(Err(err)) => Err(err),
        None => Ok(None),
    }
}

/// What a script gets back from an update: the new handle, or nothing where it stays.
pub fn update_js(update: Option<UpdateSharedHandle>) -> (r: Option<JsValue>)
    ensures
        match update {
            Some(update) => r is Some && r->0.view() == handle_update_js(update),
            None => r is None,
        },
{
    match update {
        Some(update) => Some(serialize_handle_update(update)),
        None => None,
    }
}

/// A refusal tells the length that there was and the length that there should be, or the handle.
pub proof fn law_refusal_names_numbers(length: usize, expected: usize, handle: usize)
    ensures
        ({
            let text = (HandleError::Length { length, expected }).text();
            let first = decimal(length as nat);
            let after = 21int + first.len();
            &&& text.subrange(21, after) == first
            &&& text.skip(after + 23) == decimal(expected as nat)
        }),
        (HandleError::TooLarge { handle }).text().subrange(14, 14int + hex(handle as nat).len())
            == hex(handle as nat),
{
    reveal_strlit("handle buffer length ");
    reveal_strlit(" != size_of::<usize>() ");
    reveal_strlit("shared handle ");
}

} // verus!
