//! The lifecycle state every buffer in this crate shares: whether the kernel
//! currently holds the storage, and under which id and mode.
//!
//! The model here is purely mathematical. Each buffer type's executable
//! methods carry contracts phrased over [`BufferModel`] and the transition
//! functions below, and the laws at the end of this module are proved once
//! for every buffer type at once.

use vstd::prelude::*;
use crate::DynamicType;

verus! {

/// The id pair and access mode under which a buffer is currently shared.
#[derive(Clone, Copy, Debug, PartialEq, Eq, Structural)]
pub struct ShareInfo {
    pub allow_type: DynamicType,
    pub driver_num: u32,
    pub buffer_num: u32,
}

/// Mathematical model of a buffer: the storage value it owns and, if the
/// kernel currently holds that storage, the descriptor `I` of the share
/// (which id, which mode). `shared` is `None` exactly while the application
/// owns the storage exclusively.
pub struct BufferModel<I, B> {
    pub shared: Option<I>,
    pub storage: B,
}

/// Whether the application may touch the storage: only while the kernel does
/// not hold it.
pub open spec fn access_allowed<I, B>(m: BufferModel<I, B>) -> bool {
    m.shared is None
}

/// The state after a successful share: the kernel holds the storage under
/// `info`; the storage value itself is untouched.
pub open spec fn share_transition<I, B>(m: BufferModel<I, B>, info: I) -> BufferModel<I, B> {
    BufferModel { shared: Some(info), storage: m.storage }
}

/// The state after a reclaim (forced unshare): the kernel holds nothing; the
/// storage value is untouched.
pub open spec fn reclaim_transition<I, B>(m: BufferModel<I, B>) -> BufferModel<I, B> {
    BufferModel { shared: None, storage: m.storage }
}

/// Sharing blocks access: immediately after a successful share, and for as
/// long as no reclaim happens, the application is denied the storage.
pub proof fn lemma_share_blocks_access<I, B>(m: BufferModel<I, B>, info: I)
    ensures
        !access_allowed(share_transition(m, info)),
{
}

/// Reclaiming restores access, whatever state the buffer was in.
pub proof fn lemma_reclaim_restores_access<I, B>(m: BufferModel<I, B>)
    ensures
        access_allowed(reclaim_transition(m)),
{
}

/// Reclaiming is idempotent: a second reclaim changes nothing observable.
pub proof fn lemma_reclaim_idempotent<I, B>(m: BufferModel<I, B>)
    ensures
        reclaim_transition(reclaim_transition(m)) == reclaim_transition(m),
{
}

/// Round trip: a share followed immediately by a reclaim leaves the storage
/// value unchanged and the buffer unshared — for an initially unshared
/// buffer, exactly the state it started in.
pub proof fn lemma_share_reclaim_round_trip<I, B>(m: BufferModel<I, B>, info: I)
    ensures
        reclaim_transition(share_transition(m, info)).storage == m.storage,
        access_allowed(reclaim_transition(share_transition(m, info))),
        access_allowed(m) ==> reclaim_transition(share_transition(m, info)) == m,
{
}

} // verus!
