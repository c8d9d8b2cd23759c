//! The external-image bridge: the lock / unlock / release protocol that the
//! renderer follows for producer-owned textures and buffers.

use vstd::prelude::*;
use crate::ids::WrExternalImageId;
use crate::table::{Key, KeyTable};

verus! {

/// Where an external image stands in the protocol.
#[derive(Clone, Copy, Debug, PartialEq, Eq, Structural)]
pub enum LockState {
    Unlocked,
    Locked,
    Released,
}

/// A call that the protocol does not allow.
#[derive(Clone, Copy, Debug, PartialEq, Eq, Structural)]
pub enum BridgeError {
    /// The image is locked and must be unlocked first.
    AlreadyLocked,
    /// The image is not locked.
    NotLocked,
    /// The image was released; no call may follow.
    Released,
}

/// What a lock hands the renderer: a texture handle and the sub-rectangle
/// of it that holds the image, in normalized texture coordinates (16.16
/// fixed point), or a borrowed pixel buffer of `len` bytes.
#[derive(Clone, Copy, Debug, PartialEq, Eq, Structural)]
pub enum ExternalImageSource {
    NativeTexture { handle: u32, u0: i32, v0: i32, u1: i32, v1: i32 },
    RawData { len: usize },
}

pub open spec fn external_key(id: WrExternalImageId) -> Key {
    ((id.0 as int / 0x1_0000_0000) as u32, (id.0 as int % 0x1_0000_0000) as u32)
}

fn key_of(id: WrExternalImageId) -> (k: Key)
    ensures
        k == external_key(id),
{
    ((id.0 / 0x1_0000_0000u64) as u32, (id.0 % 0x1_0000_0000u64) as u32)
}

proof fn lemma_external_key_injective(a: WrExternalImageId, b: WrExternalImageId)
    ensures
        external_key(a) == external_key(b) ==> a == b,
{
    if external_key(a) == external_key(b) {
        assert(a.0 == (a.0 as int / 0x1_0000_0000) * 0x1_0000_0000 + a.0 as int % 0x1_0000_0000);
        assert(b.0 == (b.0 as int / 0x1_0000_0000) * 0x1_0000_0000 + b.0 as int % 0x1_0000_0000);
    }
}

/// The state of every external image the renderer has touched.
pub struct ExternalImageBridge {
    pub states: KeyTable<LockState>,
}

impl ExternalImageBridge {
    pub open spec fn wf(&self) -> bool {
        self.states.wf()
    }

    /// Where `id` stands; an image never touched is unlocked.
    pub open spec fn state_of(&self, id: WrExternalImageId) -> LockState {
        if self.states.view().contains_key(external_key(id)) {
            self.states.view()[external_key(id)]
        } else {
            LockState::Unlocked
        }
    }

    pub fn new() -> (b: ExternalImageBridge)
        ensures
            b.wf(),
            forall|id: WrExternalImageId| b.state_of(id) == LockState::Unlocked,
    {
        ExternalImageBridge { states: KeyTable::new() }
    }

    pub fn state(&self, id: WrExternalImageId) -> (s: LockState)
        requires
            self.wf(),
        ensures
            s == self.state_of(id),
    {
        match self.states.get(key_of(id)) {
            Some(s) => *s,
            None => LockState::Unlocked,
        }
    }

    fn set_state(&mut self, id: WrExternalImageId, s: LockState)
        requires
            old(self).wf(),
        ensures
            final(self).wf(),
            final(self).state_of(id) == s,
            forall|other: WrExternalImageId| other != id ==> final(self).state_of(other) == old(self).state_of(other),
    {
        self.states.set(key_of(id), s);
        assert forall|other: WrExternalImageId| other != id implies self.state_of(other) == old(self).state_of(other) by {
            lemma_external_key_injective(other, id);
        }
    }

    /// Locks `id` for the frame being drawn.
    pub fn lock(&mut self, id: WrExternalImageId) -> (r: Result<(), BridgeError>)
        requires
            old(self).wf(),
        ensures
            final(self).wf(),
            old(self).state_of(id) == LockState::Unlocked <==> r is Ok,
            old(self).state_of(id) == LockState::Locked ==> r == Err::<(), BridgeError>(BridgeError::AlreadyLocked),
            old(self).state_of(id) == LockState::Released ==> r == Err::<(), BridgeError>(BridgeError::Released),
            r is Ok ==> final(self).state_of(id) == LockState::Locked,
            forall|other: WrExternalImageId| other != id ==> final(self).state_of(other) == old(self).state_of(other),
            r is Err ==> final(self).state_of(id) == old(self).state_of(id),
    {
        match self.state(id) {
            LockState::Unlocked => {
                self.set_state(id, LockState::Locked);
                Ok(())
            },
            LockState::Locked => Err(BridgeError::AlreadyLocked),
            LockState::Released => Err(BridgeError::Released),
        }
    }

    /// Ends the renderer's use of `id` for this frame.
    pub fn unlock(&mut self, id: WrExternalImageId) -> (r: Result<(), BridgeError>)
        requires
            old(self).wf(),
        ensures
            final(self).wf(),
            old(self).state_of(id) == LockState::Locked <==> r is Ok,
            old(self).state_of(id) == LockState::Unlocked ==> r == Err::<(), BridgeError>(BridgeError::NotLocked),
            old(self).state_of(id) == LockState::Released ==> r == Err::<(), BridgeError>(BridgeError::Released),
            r is Ok ==> final(self).state_of(id) == LockState::Unlocked,
            forall|other: WrExternalImageId| other != id ==> final(self).state_of(other) == old(self).state_of(other),
            r is Err ==> final(self).state_of(id) == old(self).state_of(id),
    {
        match self.state(id) {
            LockState::Locked => {
                self.set_state(id, LockState::Unlocked);
                Ok(())
            },
            LockState::Unlocked => Err(BridgeError::NotLocked),
            LockState::Released => Err(BridgeError::Released),
        }
    }

    /// Drops every reference to `id` for good; no lock may follow.
    pub fn release(&mut self, id: WrExternalImageId) -> (r: Result<(), BridgeError>)
        requires
            old(self).wf(),
        ensures
            final(self).wf(),
            old(self).state_of(id) == LockState::Unlocked <==> r is Ok,
            old(self).state_of(id) == LockState::Locked ==> r == Err::<(), BridgeError>(BridgeError::AlreadyLocked),
            old(self).state_of(id) == LockState::Released ==> r == Err::<(), BridgeError>(BridgeError::Released),
            r is Ok ==> final(self).state_of(id) == LockState::Released,
            forall|other: WrExternalImageId| other != id ==> final(self).state_of(other) == old(self).state_of(other),
            r is Err ==> final(self).state_of(id) == old(self).state_of(id),
    {
        match self.state(id) {
            LockState::Unlocked => {
                self.set_state(id, LockState::Released);
                Ok(())
            },
            LockState::Locked => Err(BridgeError::AlreadyLocked),
            LockState::Released => Err(BridgeError::Released),
        }
    }
}

} // verus!
