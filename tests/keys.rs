use i68apollo::cable::ReassemblyBuffer;
use i68apollo::calc::ti83p::TI83Plus;
use i68apollo::calc::ti89::TI89;
use i68apollo::calc::ti92p::{self, TI92Plus};
use i68apollo::calc::{diff_key_matrix, CalcHandle, CalcModel};
use i68apollo::dispatch::{plan_batch, poll_keys, KeyboardAction};
use i68apollo::keyboard::{all_keys, is_quit, CalcKey, KEY_KINDS};

#[test]
fn single_bit_set_gives_one_press() {
    let events = diff_key_matrix(&[0b0000_0000], &[0b0000_0001], &[((0, 0), CalcKey::A)]);
    assert_eq!(events, vec![(CalcKey::A, true)]);
}

#[test]
fn single_bit_cleared_gives_one_release() {
    let events = diff_key_matrix(&[0b0000_0001], &[0b0000_0000], &[((0, 0), CalcKey::A)]);
    assert_eq!(events, vec![(CalcKey::A, false)]);
}

#[test]
fn equal_snapshots_give_no_events() {
    let map = ti92p::key_to_key_map();
    let s = [0xa5u8, 0, 0xff, 3, 9, 0, 0, 1, 2, 0x80];
    assert!(diff_key_matrix(&s, &s, &map).is_empty());
}

#[test]
fn events_follow_table_order_not_bit_order() {
    let map = [((0usize, 5u8), CalcKey::X), ((0, 1), CalcKey::Y), ((1, 0), CalcKey::Z)];
    let events = diff_key_matrix(&[0, 1], &[0b0010_0010, 0], &map);
    assert_eq!(events, vec![(CalcKey::X, true), (CalcKey::Y, true), (CalcKey::Z, false)]);
}

#[test]
fn first_poll_reports_keys_already_down() {
    let mut c = TI92Plus::new();
    let mut rec = [0u8; 10];
    rec[1] = 1; // ON
    rec[0] = 0b1000_0000; // cursor down
    assert_eq!(c.get_keys(&rec), vec![(CalcKey::CursorDown, true), (CalcKey::ON, true)]);
    assert!(c.get_keys(&rec).is_empty());
    assert_eq!(c.get_keys(&[0u8; 10]), vec![(CalcKey::CursorDown, false), (CalcKey::ON, false)]);
}

#[test]
fn ti89_and_ti83p_layouts() {
    let mut a = TI89::new();
    let mut rec = [0u8; 7];
    rec[6] = 0b1000_0001;
    assert_eq!(a.get_keys(&rec), vec![(CalcKey::ESC, true), (CalcKey::ON, true)]);
    let mut b = TI83Plus::new();
    let mut rec = [0u8; 7];
    rec[5] = 1;
    rec[0] = 0b0000_1000;
    assert_eq!(b.get_keys(&rec), vec![(CalcKey::CursorUp, true), (CalcKey::ON, true)]);
}

#[test]
fn tables_have_expected_sizes() {
    assert_eq!(ti92p::key_to_key_map().len(), 78);
    assert_eq!(i68apollo::calc::ti89::key_to_key_map().len(), 50);
    assert_eq!(i68apollo::calc::ti83p::key_to_key_map().len(), 50);
    assert_eq!(CalcModel::TI92Plus.matrix_len(), 10);
    assert_eq!(CalcModel::TI89.matrix_len(), 7);
    assert_eq!(CalcModel::TI83Plus.matrix_len(), 7);
}

#[test]
fn poll_waits_for_a_full_record_then_diffs() {
    let mut buf = ReassemblyBuffer::new();
    let mut calc = CalcHandle::new(CalcModel::TI89);
    assert_eq!(poll_keys(&mut buf, &mut calc), None);
    buf.absorb(&[0b1000_0000, 0, 0]);
    assert_eq!(poll_keys(&mut buf, &mut calc), None);
    buf.absorb(&[0, 0, 0, 0]);
    assert_eq!(poll_keys(&mut buf, &mut calc), Some(vec![(CalcKey::Alpha, true)]));
    assert_eq!(buf.queued(), 0);
}

#[test]
fn poll_repairs_a_desynced_record() {
    let mut buf = ReassemblyBuffer::new();
    let mut calc = CalcHandle::new(CalcModel::TI89);
    buf.absorb(&[0xff, 0xff, 0b1000_0000, 0, 0, 0, 0, 0, 0]);
    assert_eq!(poll_keys(&mut buf, &mut calc), Some(vec![(CalcKey::Alpha, true)]));
    assert_eq!(buf.stat_malformed_reads(), 1);
}

#[test]
fn quit_ends_batch_before_later_events() {
    let events = [(CalcKey::A, true), (CalcKey::B, false), (CalcKey::ON, true), (CalcKey::C, true)];
    assert_eq!(
        plan_batch(&events),
        vec![KeyboardAction::Press(CalcKey::A), KeyboardAction::Release(CalcKey::B), KeyboardAction::Quit]
    );
}

#[test]
fn batch_without_quit_syncs_once() {
    let events = [(CalcKey::A, true), (CalcKey::ON, false)];
    assert_eq!(
        plan_batch(&events),
        vec![KeyboardAction::Press(CalcKey::A), KeyboardAction::Release(CalcKey::ON), KeyboardAction::Sync]
    );
    assert_eq!(plan_batch(&[]), vec![KeyboardAction::Sync]);
}

#[test]
fn only_pressing_on_quits() {
    assert!(is_quit(CalcKey::ON, true));
    assert!(!is_quit(CalcKey::ON, false));
    assert!(!is_quit(CalcKey::ESC, true));
}

#[test]
fn all_keys_lists_each_key_once() {
    let keys = all_keys();
    assert_eq!(keys.len(), KEY_KINDS);
    for (i, k) in keys.iter().enumerate() {
        assert!(!keys[i + 1..].contains(k));
    }
    assert!(keys.contains(&CalcKey::ON));
    assert!(keys.contains(&CalcKey::DEL));
}
