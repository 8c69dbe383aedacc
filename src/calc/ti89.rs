//! Key-matrix layout of the TI-89.
use vstd::prelude::*;

use crate::calc::{bindings_fit, diff_events, diff_key_matrix, KeyBinding, KeyEvent};
use crate::keyboard::CalcKey;

verus! {

/// Length in bytes of this model's key-matrix record.
pub const KEY_MATRIX_LEN: usize = 7;

/// Number of entries in this model's key table.
pub const KEY_COUNT: usize = 50;

/// This model's key table, in event order.
pub open spec fn key_map() -> Seq<KeyBinding> {
    seq![
        ((0, 7), CalcKey::Alpha),
        ((0, 6), CalcKey::Diamond),
        ((0, 5), CalcKey::Shift),
        ((0, 4), CalcKey::_2nd),
        ((0, 3), CalcKey::CursorRight),
        ((0, 2), CalcKey::CursorDown),
        ((0, 1), CalcKey::CursorLeft),
        ((0, 0), CalcKey::CursorUp),
        ((1, 7), CalcKey::F5),
        ((1, 6), CalcKey::CLEAR),
        ((1, 5), CalcKey::Exponentiation),
        ((1, 4), CalcKey::Division),
        ((1, 3), CalcKey::Multiplication),
        ((1, 2), CalcKey::Subtraction),
        ((1, 1), CalcKey::Addition),
        ((1, 0), CalcKey::ENTER1),
        ((2, 7), CalcKey::F4),
        ((2, 6), CalcKey::BckSpc),
        ((2, 5), CalcKey::T),
        ((2, 4), CalcKey::Comma),
        ((2, 3), CalcKey::_9),
        ((2, 2), CalcKey::_6),
        ((2, 1), CalcKey::_3),
        ((2, 0), CalcKey::Negative),
        ((3, 7), CalcKey::F3),
        ((3, 6), CalcKey::CATLG),
        ((3, 5), CalcKey::Z),
        ((3, 4), CalcKey::RightParenthesis),
        ((3, 3), CalcKey::_8),
        ((3, 2), CalcKey::_5),
        ((3, 1), CalcKey::_2),
        ((3, 0), CalcKey::Period),
        ((4, 7), CalcKey::F2),
        ((4, 6), CalcKey::MODE),
        ((4, 5), CalcKey::Y),
        ((4, 4), CalcKey::LeftParenthesis),
        ((4, 3), CalcKey::_7),
        ((4, 2), CalcKey::_4),
        ((4, 1), CalcKey::_1),
        ((4, 0), CalcKey::_0),
        ((5, 7), CalcKey::F1),
        ((5, 6), CalcKey::HOME),
        ((5, 5), CalcKey::X),
        ((5, 4), CalcKey::Equals),
        ((5, 3), CalcKey::Bar),
        ((5, 2), CalcKey::EE),
        ((5, 1), CalcKey::STO),
        ((5, 0), CalcKey::APPS),
        ((6, 0), CalcKey::ESC),
        ((6, 7), CalcKey::ON),
    ]
}

/// Builds this model's key table.
pub fn key_to_key_map() -> (r: Vec<KeyBinding>)
    ensures
        r@ == key_map(),
        r@.len() == KEY_COUNT,
        bindings_fit(r@, KEY_MATRIX_LEN as nat),
{
    let r = vec![
        ((0, 7), CalcKey::Alpha),
        ((0, 6), CalcKey::Diamond),
        ((0, 5), CalcKey::Shift),
        ((0, 4), CalcKey::_2nd),
        ((0, 3), CalcKey::CursorRight),
        ((0, 2), CalcKey::CursorDown),
        ((0, 1), CalcKey::CursorLeft),
        ((0, 0), CalcKey::CursorUp),
        ((1, 7), CalcKey::F5),
        ((1, 6), CalcKey::CLEAR),
        ((1, 5), CalcKey::Exponentiation),
        ((1, 4), CalcKey::Division),
        ((1, 3), CalcKey::Multiplication),
        ((1, 2), CalcKey::Subtraction),
        ((1, 1), CalcKey::Addition),
        ((1, 0), CalcKey::ENTER1),
        ((2, 7), CalcKey::F4),
        ((2, 6), CalcKey::BckSpc),
        ((2, 5), CalcKey::T),
        ((2, 4), CalcKey::Comma),
        ((2, 3), CalcKey::_9),
        ((2, 2), CalcKey::_6),
        ((2, 1), CalcKey::_3),
        ((2, 0), CalcKey::Negative),
        ((3, 7), CalcKey::F3),
        ((3, 6), CalcKey::CATLG),
        ((3, 5), CalcKey::Z),
        ((3, 4), CalcKey::RightParenthesis),
        ((3, 3), CalcKey::_8),
        ((3, 2), CalcKey::_5),
        ((3, 1), CalcKey::_2),
        ((3, 0), CalcKey::Period),
        ((4, 7), CalcKey::F2),
        ((4, 6), CalcKey::MODE),
        ((4, 5), CalcKey::Y),
        ((4, 4), CalcKey::LeftParenthesis),
        ((4, 3), CalcKey::_7),
        ((4, 2), CalcKey::_4),
        ((4, 1), CalcKey::_1),
        ((4, 0), CalcKey::_0),
        ((5, 7), CalcKey::F1),
        ((5, 6), CalcKey::HOME),
        ((5, 5), CalcKey::X),
        ((5, 4), CalcKey::Equals),
        ((5, 3), CalcKey::Bar),
        ((5, 2), CalcKey::EE),
        ((5, 1), CalcKey::STO),
        ((5, 0), CalcKey::APPS),
        ((6, 0), CalcKey::ESC),
        ((6, 7), CalcKey::ON),
    ];
    assert(r@ == key_map());
    r
}

/// Current and previous key-matrix snapshots of a TI-89.
#[derive(Clone, Copy, Debug, PartialEq, Eq)]
pub struct TI89 {
    key_matrix: [u8; KEY_MATRIX_LEN],
    prev_key_matrix: [u8; KEY_MATRIX_LEN],
}

impl TI89 {
    /// The latest snapshot.
    pub closed spec fn current(&self) -> Seq<u8> {
        self.key_matrix@
    }

    /// The snapshot before the latest one.
    pub closed spec fn previous(&self) -> Seq<u8> {
        self.prev_key_matrix@
    }

    /// Both snapshots start all zero.
    pub fn new() -> (r: TI89)
        ensures
            r.current() == Seq::new(KEY_MATRIX_LEN as nat, |i: int| 0u8),
            r.previous() == Seq::new(KEY_MATRIX_LEN as nat, |i: int| 0u8),
    {
        let r = TI89 { key_matrix: [0; KEY_MATRIX_LEN], prev_key_matrix: [0; KEY_MATRIX_LEN] };
        assert(r.current() =~= Seq::new(KEY_MATRIX_LEN as nat, |i: int| 0u8));
        assert(r.previous() =~= Seq::new(KEY_MATRIX_LEN as nat, |i: int| 0u8));
        r
    }

    /// Takes a fresh record as the current snapshot, keeps the old one as previous,
    /// and returns the key events between the two, in table order.
    pub fn get_keys(&mut self, record: &[u8]) -> (r: Vec<KeyEvent>)
        requires
            record@.len() == KEY_MATRIX_LEN,
        ensures
            final(self).previous() == old(self).current(),
            final(self).current() == record@,
            r@ == diff_events(old(self).current(), record@, key_map()),
    {
        self.prev_key_matrix = self.key_matrix;
        let mut i: usize = 0;
        while i < KEY_MATRIX_LEN
            invariant
                i <= KEY_MATRIX_LEN,
                record@.len() == KEY_MATRIX_LEN,
                self.prev_key_matrix@ == old(self).key_matrix@,
                self.key_matrix@.len() == KEY_MATRIX_LEN,
                forall|j: int| 0 <= j < i ==> self.key_matrix@[j] == record@[j],
            decreases KEY_MATRIX_LEN - i,
        {
            self.key_matrix[i] = record[i];
            i = i + 1;
        }
        assert(self.key_matrix@ =~= record@);
        let map = key_to_key_map();
        diff_key_matrix(&self.prev_key_matrix, &self.key_matrix, map.as_slice())
    }
}

} // verus!
