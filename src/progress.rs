use vstd::prelude::*;

use crate::api::ApiError;
use crate::validate::{is_valid_key_field, key_field_ok};

verus! {

/// A reader's position in one document, as last pushed from some device.
///
/// `percentage_bits` holds the bit pattern of the client's single-precision
/// percentage: the library carries it and never computes with it.
#[derive(Clone, Debug)]
pub struct ProgressState {
    pub document: String,
    pub percentage_bits: u32,
    pub progress: String,
    pub device: String,
    pub device_id: Option<String>,
    pub timestamp: Option<u64>,
}

/// The mathematical content of a [`ProgressState`].
pub struct StateView {
    pub document: Seq<char>,
    pub percentage_bits: u32,
    pub progress: Seq<char>,
    pub device: Seq<char>,
    pub device_id: Option<Seq<char>>,
    pub timestamp: Option<u64>,
}

/// The characters of an optional text.
pub open spec fn opt_view(o: Option<String>) -> Option<Seq<char>> {
    match o {
        Some(s) => Some(s@),
        None => None,
    }
}

impl View for ProgressState {
    type V = StateView;

    open spec fn view(&self) -> StateView {
        StateView {
            document: self.document@,
            percentage_bits: self.percentage_bits,
            progress: self.progress@,
            device: self.device@,
            device_id: opt_view(self.device_id),
            timestamp: self.timestamp,
        }
    }
}

/// The same state with the timestamp replaced by `t`.
pub open spec fn stamped(v: StateView, t: u64) -> StateView {
    StateView { timestamp: Some(t), ..v }
}

/// Prepares a pushed state for storage: its document must be a key field,
/// and whatever timestamp the client sent is replaced by the server's clock
/// reading `now`. Every other field is kept as it came.
pub fn stamp_progress(data: ProgressState, now: u64) -> (r: Result<ProgressState, ApiError>)
    ensures
        !key_field_ok(data.document@) ==> r == Err::<ProgressState, ApiError>(
            ApiError::DocumentFieldMissing,
        ),
        key_field_ok(data.document@) ==> (r matches Ok(s) && s@ == stamped(data@, now)),
{
    if !is_valid_key_field(data.document.as_str()) {
        return Err(ApiError::DocumentFieldMissing);
    }
    let mut data = data;
    data.timestamp = Some(now);
    Ok(data)
}

} // verus!
