//! Key-matrix snapshots, per-model key tables, and the diff engine.
use vstd::prelude::*;

pub use crate::handshake::{apollo_version, HandshakeError};
use crate::handshake::HandshakeStage;
use crate::keyboard::CalcKey;
use ti83p::TI83Plus;
use ti89::TI89;
use ti92p::TI92Plus;

pub mod ti83p;
pub mod ti89;
pub mod ti92p;

verus! {

/// One table entry: `((row, bit), key)`, the key whose state is bit `bit` of byte `row`.
pub type KeyBinding = ((usize, u8), CalcKey);

/// One key event: the key and whether it is now pressed.
pub type KeyEvent = (CalcKey, bool);

/// Bit `bit` of `b`, masked in place.
pub open spec fn masked_bit(b: u8, bit: u8) -> u8 {
    b & (1u8 << bit)
}

/// Every entry of `map` names a byte below `len` and a bit below 8.
pub open spec fn bindings_fit(map: Seq<KeyBinding>, len: nat) -> bool {
    forall|i: int| 0 <= i < map.len() ==> (#[trigger] map[i]).0.0 < len && map[i].0.1 < 8
}

/// The events that the change from `prev` to `curr` produces, in the order of `map`:
/// one `(key, now_pressed)` for each entry whose bit differs between the two snapshots.
pub open spec fn diff_events(prev: Seq<u8>, curr: Seq<u8>, map: Seq<KeyBinding>) -> Seq<KeyEvent>
    decreases map.len(),
{
    if map.len() == 0 {
        seq![]
    } else {
        let earlier = diff_events(prev, curr, map.drop_last());
        let ((row, bit), key) = map.last();
        let c = masked_bit(curr[row as int], bit);
        if c != masked_bit(prev[row as int], bit) {
            earlier.push((key, c != 0))
        } else {
            earlier
        }
    }
}

/// Two equal snapshots produce no event.
pub proof fn lemma_no_change_no_events(snapshot: Seq<u8>, map: Seq<KeyBinding>)
    ensures
        diff_events(snapshot, snapshot, map) == Seq::<KeyEvent>::empty(),
    decreases map.len(),
{
    if map.len() > 0 {
        lemma_no_change_no_events(snapshot, map.drop_last());
    }
}

/// Compares two snapshots of a key matrix under `map` and returns the edge events,
/// in table order.
pub fn diff_key_matrix(prev: &[u8], curr: &[u8], map: &[KeyBinding]) -> (r: Vec<KeyEvent>)
    requires
        prev@.len() == curr@.len(),
        bindings_fit(map@, curr@.len()),
    ensures
        r@ == diff_events(prev@, curr@, map@),
{
    let mut keys: Vec<KeyEvent> = Vec::new();
    let mut i: usize = 0;
    while i < map.len()
        invariant
            i <= map@.len(),
            prev@.len() == curr@.len(),
            bindings_fit(map@, curr@.len()),
            keys@ == diff_events(prev@, curr@, map@.take(i as int)),
        decreases map@.len() - i,
    {
        let ((row, col), key) = map[i];
        let c = curr[row] & (1u8 << col);
        let p = prev[row] & (1u8 << col);
        if c != p {
            if c == 0 {
                keys.push((key, false));
            } else {
                keys.push((key, true));
            }
        }
        proof {
            assert(map@.take(i + 1).drop_last() == map@.take(i as int));
        }
        i = i + 1;
    }
    proof {
        assert(map@.take(i as int) == map@);
    }
    keys
}

/// The calculator models this bridge knows.
#[derive(Clone, Copy, Debug, PartialEq, Eq, Hash, Structural)]
pub enum CalcModel {
    TI92Plus,
    TI89,
    TI83Plus,
}

/// Machine id that a TI-92 Plus sends during the handshake.
pub const MACHINE_ID_TI92P: u8 = 192;

/// Machine id that a TI-89 sends during the handshake.
pub const MACHINE_ID_TI89: u8 = 89;

/// Machine id that a TI-83 Plus sends during the handshake.
pub const MACHINE_ID_TI83P: u8 = 183;

/// The model that a machine id names, if any.
pub open spec fn model_of_id(id: u8) -> Option<CalcModel> {
    if id == MACHINE_ID_TI92P {
        Some(CalcModel::TI92Plus)
    } else if id == MACHINE_ID_TI89 {
        Some(CalcModel::TI89)
    } else if id == MACHINE_ID_TI83P {
        Some(CalcModel::TI83Plus)
    } else {
        None
    }
}

impl CalcModel {
    /// Length in bytes of the model's key-matrix record.
    pub open spec fn spec_matrix_len(self) -> nat {
        match self {
            CalcModel::TI92Plus => ti92p::KEY_MATRIX_LEN as nat,
            CalcModel::TI89 => ti89::KEY_MATRIX_LEN as nat,
            CalcModel::TI83Plus => ti83p::KEY_MATRIX_LEN as nat,
        }
    }

    /// The model's key table.
    pub open spec fn key_map(self) -> Seq<KeyBinding> {
        match self {
            CalcModel::TI92Plus => ti92p::key_map(),
            CalcModel::TI89 => ti89::key_map(),
            CalcModel::TI83Plus => ti83p::key_map(),
        }
    }

    /// Looks up the model that a machine id names.
    pub fn from_machine_id(id: u8) -> (r: Option<CalcModel>)
        ensures
            r == model_of_id(id),
    {
        if id == MACHINE_ID_TI92P {
            Some(CalcModel::TI92Plus)
        } else if id == MACHINE_ID_TI89 {
            Some(CalcModel::TI89)
        } else if id == MACHINE_ID_TI83P {
            Some(CalcModel::TI83Plus)
        } else {
            None
        }
    }

    /// Length in bytes of the model's key-matrix record.
    pub fn matrix_len(self) -> (r: usize)
        ensures
            r == self.spec_matrix_len(),
    {
        match self {
            CalcModel::TI92Plus => ti92p::KEY_MATRIX_LEN,
            CalcModel::TI89 => ti89::KEY_MATRIX_LEN,
            CalcModel::TI83Plus => ti83p::KEY_MATRIX_LEN,
        }
    }
}

/// The key-matrix state of the connected calculator, for whichever model it is.
#[derive(Clone, Copy, Debug, PartialEq, Eq)]
pub enum CalcHandle {
    TI92Plus(TI92Plus),
    TI89(TI89),
    TI83Plus(TI83Plus),
}

impl CalcHandle {
    /// The model whose layout this handle decodes.
    pub open spec fn model(&self) -> CalcModel {
        match self {
            CalcHandle::TI92Plus(_) => CalcModel::TI92Plus,
            CalcHandle::TI89(_) => CalcModel::TI89,
            CalcHandle::TI83Plus(_) => CalcModel::TI83Plus,
        }
    }

    /// The latest snapshot.
    pub open spec fn current(&self) -> Seq<u8> {
        match self {
            CalcHandle::TI92Plus(c) => c.current(),
            CalcHandle::TI89(c) => c.current(),
            CalcHandle::TI83Plus(c) => c.current(),
        }
    }

    /// The snapshot before the latest one.
    pub open spec fn previous(&self) -> Seq<u8> {
        match self {
            CalcHandle::TI92Plus(c) => c.previous(),
            CalcHandle::TI89(c) => c.previous(),
            CalcHandle::TI83Plus(c) => c.previous(),
        }
    }

    /// A fresh handle for `model`, with both snapshots all zero.
    pub fn new(model: CalcModel) -> (r: CalcHandle)
        ensures
            r.model() == model,
            r.current() == Seq::new(model.spec_matrix_len(), |i: int| 0u8),
            r.previous() == Seq::new(model.spec_matrix_len(), |i: int| 0u8),
    {
        match model {
            CalcModel::TI92Plus => CalcHandle::TI92Plus(TI92Plus::new()),
            CalcModel::TI89 => CalcHandle::TI89(TI89::new()),
            CalcModel::TI83Plus => CalcHandle::TI83Plus(TI83Plus::new()),
        }
    }

    /// Length in bytes of the record that `get_keys` takes.
    pub fn matrix_len(&self) -> (r: usize)
        ensures
            r == self.model().spec_matrix_len(),
    {
        match self {
            CalcHandle::TI92Plus(_) => ti92p::KEY_MATRIX_LEN,
            CalcHandle::TI89(_) => ti89::KEY_MATRIX_LEN,
            CalcHandle::TI83Plus(_) => ti83p::KEY_MATRIX_LEN,
        }
    }

    /// Takes a fresh record as the current snapshot, keeps the old one as previous,
    /// and returns the key events between the two, in the model's table order.
    pub fn get_keys(&mut self, record: &[u8]) -> (r: Vec<KeyEvent>)
        requires
            record@.len() == old(self).model().spec_matrix_len(),
        ensures
            final(self).model() == old(self).model(),
            final(self).previous() == old(self).current(),
            final(self).current() == record@,
            r@ == diff_events(old(self).current(), record@, old(self).model().key_map()),
    {
        match self {
            CalcHandle::TI92Plus(c) => c.get_keys(record),
            CalcHandle::TI89(c) => c.get_keys(record),
            CalcHandle::TI83Plus(c) => c.get_keys(record),
        }
    }
}

/// The outcome of a handshake that identified the calculator.
#[derive(Clone, Copy, Debug, PartialEq, Eq)]
pub struct I68MetaInfo {
    pub soyuz_ver: (u8, u8, u8),
    pub machine_id: u8,
    pub calc_handle: CalcHandle,
}

impl I68MetaInfo {
    /// The outcome of a finished handshake that asked for a machine id: the remote
    /// version with a fresh handle for the identified model, or the failure.
    /// `None` while the handshake is still running, and for a handshake that
    /// asked for no machine id.
    pub fn from_stage(stage: &HandshakeStage) -> (r: Option<Result<I68MetaInfo, HandshakeError>>)
        ensures
            match *stage {
                HandshakeStage::Identified(v, id) => match model_of_id(id) {
                    Some(m) => r matches Some(Ok(info)) && info.soyuz_ver == v
                        && info.machine_id == id && info.calc_handle.model() == m
                        && info.calc_handle.current() == Seq::new(m.spec_matrix_len(), |i: int| 0u8)
                        && info.calc_handle.previous() == Seq::new(m.spec_matrix_len(), |i: int| 0u8),
                    None => r == Some(Err::<I68MetaInfo, HandshakeError>(HandshakeError::UnknownMachineId(id))),
                },
                HandshakeStage::Failed(e) => r == Some(Err::<I68MetaInfo, HandshakeError>(e)),
                _ => r is None,
            },
    {
        match *stage {
            HandshakeStage::Identified(v, id) => match CalcModel::from_machine_id(id) {
                Some(m) => Some(
                    Ok(I68MetaInfo { soyuz_ver: v, machine_id: id, calc_handle: CalcHandle::new(m) }),
                ),
                None => Some(Err(HandshakeError::UnknownMachineId(id))),
            },
            HandshakeStage::Failed(e) => Some(Err(e)),
            _ => None,
        }
    }
}

} // verus!
