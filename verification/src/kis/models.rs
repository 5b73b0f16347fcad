//! The error body the KIS API answers with.
use vstd::prelude::*;

verus! {

/// The error fields of a KIS API response.
#[derive(Clone, Debug)]
pub struct KisApiErrorBody {
    pub rt_cd: Option<String>,
    pub msg_cd: Option<String>,
    pub msg1: Option<String>,
}

} // verus!
