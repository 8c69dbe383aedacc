use i68apollo::calc::{CalcModel, I68MetaInfo};
use i68apollo::handshake::{advance, HandshakeStage, READY_BYTE};
use i68apollo::{apollo_version, HandshakeError, I68Config};

/// Runs a handshake over `wire`, returning the final stage and everything written.
fn run(local: (u8, u8, u8), identify: bool, wire: &[u8]) -> (HandshakeStage, Vec<u8>, usize) {
    let mut stage = HandshakeStage::AwaitReady;
    let mut pos = 0;
    let mut written = Vec::new();
    loop {
        let n = stage.bytes_wanted();
        if n == 0 || pos + n > wire.len() {
            return (stage, written, pos);
        }
        let (next, reply) = advance(stage, local, identify, &wire[pos..pos + n]);
        pos += n;
        if let Some(r) = reply {
            written.extend_from_slice(&r);
        }
        stage = next;
    }
}

#[test]
fn bad_ready_byte_fails_before_version() {
    let (stage, written, read) = run((1, 3, 0), true, &[0x51, 1, 3, 0, 192]);
    assert_eq!(stage, HandshakeStage::Failed(HandshakeError::OtherError));
    assert_eq!(read, 1);
    assert!(written.is_empty());
    assert_eq!(stage.bytes_wanted(), 0);
}

#[test]
fn minor_mismatch_fails_whatever_the_patch() {
    for (rp, lp) in [(0u8, 0u8), (9, 4), (255, 1)] {
        let (stage, written, read) = run((1, 3, lp), true, &[0x50, 1, 2, rp, 192]);
        assert_eq!(stage, HandshakeStage::Failed(HandshakeError::VersionMismatch(1, 2, rp)));
        assert_eq!(written, vec![1, 3, lp]);
        assert_eq!(read, 4);
    }
}

#[test]
fn major_mismatch_fails() {
    let (stage, _, _) = run((1, 3, 0), false, &[0x50, 2, 3, 0]);
    assert_eq!(stage, HandshakeStage::Failed(HandshakeError::VersionMismatch(2, 3, 0)));
    assert_eq!(I68Config::from_stage(&stage), Some(Err(HandshakeError::VersionMismatch(2, 3, 0))));
}

#[test]
fn matching_major_minor_succeeds_with_any_patch() {
    let (stage, written, _) = run((1, 3, 0), false, &[0x50, 1, 3, 7]);
    assert_eq!(stage, HandshakeStage::Established((1, 3, 7)));
    assert_eq!(written, vec![1, 3, 0]);
    assert_eq!(I68Config::from_stage(&stage), Some(Ok(I68Config { soyuz_ver: (1, 3, 7) })));
}

#[test]
fn known_machine_ids_identify_models() {
    for (id, model, len) in [(192u8, CalcModel::TI92Plus, 10usize), (89, CalcModel::TI89, 7), (183, CalcModel::TI83Plus, 7)] {
        let (stage, _, read) = run((0, 1, 0), true, &[READY_BYTE, 0, 1, 5, id]);
        assert_eq!(read, 5);
        assert_eq!(stage, HandshakeStage::Identified((0, 1, 5), id));
        let info = I68MetaInfo::from_stage(&stage).unwrap().unwrap();
        assert_eq!(info.soyuz_ver, (0, 1, 5));
        assert_eq!(info.machine_id, id);
        assert_eq!(info.calc_handle.matrix_len(), len);
        assert_eq!(CalcModel::from_machine_id(id), Some(model));
    }
}

#[test]
fn unknown_machine_id_fails() {
    let (stage, _, _) = run((0, 1, 0), true, &[0x50, 0, 1, 0, 7]);
    assert_eq!(stage, HandshakeStage::Failed(HandshakeError::UnknownMachineId(7)));
    assert_eq!(
        I68MetaInfo::from_stage(&stage).map(|r| r.map(|i| i.machine_id)),
        Some(Err(HandshakeError::UnknownMachineId(7)))
    );
}

#[test]
fn unfinished_handshake_has_no_outcome() {
    let (stage, _, _) = run((0, 1, 0), true, &[0x50, 0, 1]);
    assert_eq!(stage, HandshakeStage::ExchangeVersion);
    assert_eq!(stage.bytes_wanted(), 3);
    assert_eq!(I68Config::from_stage(&stage), None);
    assert!(I68MetaInfo::from_stage(&stage).is_none());
}

#[test]
fn local_version_is_the_package_version() {
    assert_eq!(apollo_version(), (0, 1, 0));
    assert_eq!(i68apollo::calc::apollo_version(), apollo_version());
}
