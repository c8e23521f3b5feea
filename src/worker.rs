use vstd::prelude::*;

use crate::status::{status_code_spec, Status};

verus! {

/// The ABI revision that this worker implements.
pub const WORKER_API_VERSION: u32 = 1;

/// The smallest case buffer that can hold a recognized header.
pub const CASE_HEADER_MIN_LEN: usize = 17;

/// The first byte of a recognized case header.
pub const CASE_FORMAT_MARKER: u8 = 1;

/// The first byte of every reply: it names the reply's layout.
pub const REPLY_SCHEMA_MARKER: u8 = 1;

/// The size in bytes of a reply.
pub const REPLY_LEN: usize = 4;

/// What `run` returns at the call level when the call completed, whatever the
/// verdict inside the reply.
pub const RUN_COMPLETED: i32 = 0;

/// What `run` returns at the call level when the call itself failed.
pub const RUN_FAILED: i32 = -1;

/// The bytes of a case buffer as handed over, `None` standing for a null
/// pointer.
pub open spec fn case_view(input: Option<&[u8]>) -> Option<Seq<u8>> {
    match input {
        Option::None => Option::None,
        Option::Some(bytes) => Option::Some(bytes@),
    }
}

/// Whether a case buffer (`None` for a null pointer) carries a recognized
/// header: at least the minimum length, with the format marker first.
pub open spec fn header_recognized(input: Option<Seq<u8>>) -> bool {
    match input {
        Option::None => false,
        Option::Some(bytes) => bytes.len() >= CASE_HEADER_MIN_LEN && bytes[0] == CASE_FORMAT_MARKER,
    }
}

/// The verdict on a case buffer.
pub open spec fn case_status(input: Option<Seq<u8>>) -> Status {
    if header_recognized(input) {
        Status::Valid
    } else {
        Status::InvalidInput
    }
}

/// The reply that carries a status: schema marker, status byte, two reserved
/// zero bytes.
pub open spec fn reply_bytes(status: Status) -> Seq<u8> {
    seq![REPLY_SCHEMA_MARKER, status_code_spec(status), 0u8, 0u8]
}

/// Why a call to `run` failed at the call level. No reply is produced in
/// either case.
#[derive(Clone, Copy, Debug, PartialEq, Eq, Structural)]
pub enum CallError {
    /// The place for the reply's address or for its length was null.
    NullOutParam,
    /// No memory could be had for the reply.
    AllocationFailed,
}

impl CallError {
    /// The call-level result code of the failure.
    pub fn code(self) -> (r: i32)
        ensures
            r == RUN_FAILED,
            r != RUN_COMPLETED,
    {
        match self {
            CallError::NullOutParam => RUN_FAILED,
            CallError::AllocationFailed => RUN_FAILED,
        }
    }
}

/// The ABI revision of this worker; it is the same on every call.
pub fn sp_differ_worker_api_version() -> (r: u32)
    ensures
        r == WORKER_API_VERSION,
        r == 1,
{
    WORKER_API_VERSION
}

/// Whether the case buffer (`None` for a null pointer) carries a recognized
/// header.
pub fn validate_case_header(input: Option<&[u8]>) -> (r: bool)
    ensures
        r == header_recognized(case_view(input)),
{
    match input {
        None => false,
        Some(bytes) => {
            if bytes.len() < CASE_HEADER_MIN_LEN {
                false
            } else {
                bytes[0] == CASE_FORMAT_MARKER
            }
        },
    }
}

/// Lays out the reply that carries `status`.
pub fn encode_reply(status: Status) -> (r: Vec<u8>)
    ensures
        r@ == reply_bytes(status),
        r@.len() == REPLY_LEN,
{
    let r = vec![REPLY_SCHEMA_MARKER, status.code(), 0u8, 0u8];
    assert(r@ =~= reply_bytes(status));
    r
}

/// Runs one case: the call-level decision and the reply.
///
/// `out_ptr_given` and `out_len_given` say whether the places that receive the
/// reply's address and length are non-null. If either is null the call fails
/// and no reply is made. Otherwise the call completes with the reply that
/// carries the case's verdict; a null case buffer, a short one or one with
/// another first byte is a verdict of invalid input, never a call failure.
/// The case buffer is only read.
pub fn sp_differ_worker_run(input: Option<&[u8]>, out_ptr_given: bool, out_len_given: bool) -> (r:
    Result<Vec<u8>, CallError>)
    ensures
        r is Ok <==> (out_ptr_given && out_len_given),
        r is Err ==> r->Err_0 == CallError::NullOutParam,
        r is Ok ==> r->Ok_0@ == reply_bytes(case_status(case_view(input))),
        r is Ok ==> r->Ok_0@.len() == REPLY_LEN && r->Ok_0@[0] == REPLY_SCHEMA_MARKER,
        r is Ok && input is None ==> r->Ok_0@[1] == status_code_spec(Status::InvalidInput),
        r is Ok && input is Some && input->0@.len() < CASE_HEADER_MIN_LEN ==> r->Ok_0@[1]
            == status_code_spec(Status::InvalidInput),
        r is Ok && input is Some && input->0@.len() >= CASE_HEADER_MIN_LEN && input->0@[0]
            == CASE_FORMAT_MARKER ==> r->Ok_0@[1] == status_code_spec(Status::Valid),
        r is Ok && input is Some && input->0@.len() >= CASE_HEADER_MIN_LEN && input->0@[0]
            != CASE_FORMAT_MARKER ==> r->Ok_0@[1] == status_code_spec(Status::InvalidInput),
{
    if !out_ptr_given || !out_len_given {
        return Err(CallError::NullOutParam);
    }
    let status = if validate_case_header(input) {
        Status::Valid
    } else {
        Status::InvalidInput
    };
    Ok(encode_reply(status))
}

} // verus!
