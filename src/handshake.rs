//! The one-shot handshake that opens a session: ready byte, version exchange,
//! and, where several models are supported, the machine id.
use vstd::prelude::*;

use crate::calc::model_of_id;

verus! {

/// A protocol version: `(major, minor, patch)`.
pub type Version = (u8, u8, u8);

/// The byte the calculator sends when it is ready.
pub const READY_BYTE: u8 = 0x50;

/// Major version of this side of the protocol.
pub const APOLLO_VERSION_MAJOR: u8 = 0;

/// Minor version of this side of the protocol.
pub const APOLLO_VERSION_MINOR: u8 = 1;

/// Patch version of this side of the protocol.
pub const APOLLO_VERSION_PATCH: u8 = 0;

/// The version of this side of the protocol.
pub fn apollo_version() -> (r: Version)
    ensures
        r == (APOLLO_VERSION_MAJOR, APOLLO_VERSION_MINOR, APOLLO_VERSION_PATCH),
{
    (APOLLO_VERSION_MAJOR, APOLLO_VERSION_MINOR, APOLLO_VERSION_PATCH)
}

/// Two versions work together when major and minor agree; patch is informational.
pub open spec fn compatible(a: Version, b: Version) -> bool {
    a.0 == b.0 && a.1 == b.1
}

/// Why a handshake failed.
#[derive(Clone, Copy, Debug, PartialEq, Eq, Hash, Structural)]
pub enum HandshakeError {
    /// The remote version, whose major or minor differs from ours.
    VersionMismatch(u8, u8, u8),
    /// The machine id the calculator sent, which names no known model.
    UnknownMachineId(u8),
    /// The calculator did not send the ready byte.
    OtherError,
}

/// The outcome of a handshake that ends at the version exchange.
#[derive(Clone, Copy, Debug, PartialEq, Eq, Hash)]
pub struct I68Config {
    pub soyuz_ver: (u8, u8, u8),
}

/// Where a handshake stands.
#[derive(Clone, Copy, Debug, PartialEq, Eq, Hash)]
pub enum HandshakeStage {
    /// Waiting for the ready byte.
    AwaitReady,
    /// Waiting for the remote version's three bytes.
    ExchangeVersion,
    /// Versions agree; waiting for the machine id.
    IdentifyDevice(Version),
    /// Done, with the remote version; no machine id is asked for.
    Established(Version),
    /// Done, with the remote version and a known machine id.
    Identified(Version, u8),
    /// Failed; nothing more is read.
    Failed(HandshakeError),
}

impl HandshakeStage {
    /// How many bytes the stage reads next; zero once the handshake is over.
    pub open spec fn spec_bytes_wanted(self) -> nat {
        match self {
            HandshakeStage::AwaitReady => 1,
            HandshakeStage::ExchangeVersion => 3,
            HandshakeStage::IdentifyDevice(_) => 1,
            _ => 0,
        }
    }

    /// How many bytes to read before the next call of `advance`; `0` once the
    /// handshake is over.
    pub fn bytes_wanted(&self) -> (r: usize)
        ensures
            r == self.spec_bytes_wanted(),
    {
        match self {
            HandshakeStage::AwaitReady => 1,
            HandshakeStage::ExchangeVersion => 3,
            HandshakeStage::IdentifyDevice(_) => 1,
            _ => 0,
        }
    }
}

/// The stage that follows `stage` once `input` (of `spec_bytes_wanted` bytes) is
/// read, for local version `local`; `identify` says whether a machine id follows
/// the version exchange.
pub open spec fn next_stage(stage: HandshakeStage, local: Version, identify: bool, input: Seq<u8>)
    -> HandshakeStage
{
    match stage {
        HandshakeStage::AwaitReady => if input[0] == READY_BYTE {
            HandshakeStage::ExchangeVersion
        } else {
            HandshakeStage::Failed(HandshakeError::OtherError)
        },
        HandshakeStage::ExchangeVersion => {
            let remote = (input[0], input[1], input[2]);
            if !compatible(local, remote) {
                HandshakeStage::Failed(HandshakeError::VersionMismatch(remote.0, remote.1, remote.2))
            } else if identify {
                HandshakeStage::IdentifyDevice(remote)
            } else {
                HandshakeStage::Established(remote)
            }
        },
        HandshakeStage::IdentifyDevice(remote) => if model_of_id(input[0]) is Some {
            HandshakeStage::Identified(remote, input[0])
        } else {
            HandshakeStage::Failed(HandshakeError::UnknownMachineId(input[0]))
        },
        _ => stage,
    }
}

/// What to write back right after `input` is read in `stage`: our version,
/// answering the remote's, whether or not the two agree.
pub open spec fn reply(stage: HandshakeStage, local: Version) -> Option<Seq<u8>> {
    if stage == HandshakeStage::ExchangeVersion {
        Some(seq![local.0, local.1, local.2])
    } else {
        None
    }
}

/// Moves the handshake on by the bytes just read: returns the next stage and the
/// bytes to write at once, if any.
pub fn advance(stage: HandshakeStage, local: Version, identify: bool, input: &[u8]) -> (r: (
    HandshakeStage,
    Option<[u8; 3]>,
))
    requires
        stage.spec_bytes_wanted() > 0,
        input@.len() == stage.spec_bytes_wanted(),
    ensures
        r.0 == next_stage(stage, local, identify, input@),
        r.1 is Some == reply(stage, local) is Some,
        r.1 is Some ==> r.1->0@ == reply(stage, local)->0,
{
    match stage {
        HandshakeStage::AwaitReady => {
            if input[0] == READY_BYTE {
                (HandshakeStage::ExchangeVersion, None)
            } else {
                (HandshakeStage::Failed(HandshakeError::OtherError), None)
            }
        },
        HandshakeStage::ExchangeVersion => {
            let remote: Version = (input[0], input[1], input[2]);
            let answer: [u8; 3] = [local.0, local.1, local.2];
            assert(answer@ =~= seq![local.0, local.1, local.2]);
            if local.0 != remote.0 || local.1 != remote.1 {
                (
                    HandshakeStage::Failed(
                        HandshakeError::VersionMismatch(remote.0, remote.1, remote.2),
                    ),
                    Some(answer),
                )
            } else if identify {
                (HandshakeStage::IdentifyDevice(remote), Some(answer))
            } else {
                (HandshakeStage::Established(remote), Some(answer))
            }
        },
        HandshakeStage::IdentifyDevice(remote) => {
            let id = input[0];
            match crate::calc::CalcModel::from_machine_id(id) {
                Some(_) => (HandshakeStage::Identified(remote, id), None),
                None => (HandshakeStage::Failed(HandshakeError::UnknownMachineId(id)), None),
            }
        },
        _ => (stage, None),
    }
}

/// A first byte other than the ready byte fails the handshake at once: nothing
/// more is read, and no version is written.
pub proof fn lemma_bad_ready_fails_first(local: Version, identify: bool, b: u8)
    requires
        b != READY_BYTE,
    ensures
        next_stage(HandshakeStage::AwaitReady, local, identify, seq![b])
            == HandshakeStage::Failed(HandshakeError::OtherError),
        next_stage(HandshakeStage::AwaitReady, local, identify, seq![b]).spec_bytes_wanted() == 0,
        reply(HandshakeStage::AwaitReady, local) is None,
{
}

/// A remote version whose major or minor differs from ours fails the handshake
/// with that remote version, whatever the two patch numbers are; our version is
/// still written back.
pub proof fn lemma_version_mismatch(local: Version, remote: Version, identify: bool)
    requires
        local.0 != remote.0 || local.1 != remote.1,
    ensures
        next_stage(HandshakeStage::ExchangeVersion, local, identify, seq![remote.0, remote.1, remote.2])
            == HandshakeStage::Failed(HandshakeError::VersionMismatch(remote.0, remote.1, remote.2)),
        reply(HandshakeStage::ExchangeVersion, local) == Some(seq![local.0, local.1, local.2]),
{
}

/// A remote version with our major and minor passes the version exchange, whatever
/// the two patch numbers are.
pub proof fn lemma_version_match(local: Version, remote: Version, identify: bool)
    requires
        local.0 == remote.0 && local.1 == remote.1,
    ensures
        next_stage(HandshakeStage::ExchangeVersion, local, identify, seq![remote.0, remote.1, remote.2])
            == if identify {
            HandshakeStage::IdentifyDevice(remote)
        } else {
            HandshakeStage::Established(remote)
        },
{
}

/// A machine id that names no known model fails the handshake with that id.
pub proof fn lemma_unknown_machine_id(local: Version, remote: Version, id: u8)
    requires
        model_of_id(id) is None,
    ensures
        next_stage(HandshakeStage::IdentifyDevice(remote), local, true, seq![id])
            == HandshakeStage::Failed(HandshakeError::UnknownMachineId(id)),
{
}

impl I68Config {
    /// The outcome of a finished handshake: the remote version, or the failure.
    /// `None` while the handshake is still running.
    pub fn from_stage(stage: &HandshakeStage) -> (r: Option<Result<I68Config, HandshakeError>>)
        ensures
            r == match *stage {
                HandshakeStage::Established(v) => Some(Ok(I68Config { soyuz_ver: v })),
                HandshakeStage::Identified(v, _) => Some(Ok(I68Config { soyuz_ver: v })),
                HandshakeStage::Failed(e) => Some(Err(e)),
                _ => None,
            },
    {
        match *stage {
            HandshakeStage::Established(v) => Some(Ok(I68Config { soyuz_ver: v })),
            HandshakeStage::Identified(v, _) => Some(Ok(I68Config { soyuz_ver: v })),
            HandshakeStage::Failed(e) => Some(Err(e)),
            _ => None,
        }
    }
}

} // verus!
