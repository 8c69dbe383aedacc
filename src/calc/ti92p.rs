//! Key-matrix layout of the TI-92 Plus.
use vstd::prelude::*;

use crate::calc::{bindings_fit, diff_events, diff_key_matrix, KeyBinding, KeyEvent};
use crate::keyboard::CalcKey;

verus! {

/// Length in bytes of this model's key-matrix record.
pub const KEY_MATRIX_LEN: usize = 10;

/// Number of entries in this model's key table.
pub const KEY_COUNT: usize = 78;

/// This model's key table, in event order.
pub open spec fn key_map() -> Seq<KeyBinding> {
    seq![
        ((0, 7), CalcKey::CursorDown),
        ((0, 6), CalcKey::CursorRight),
        ((0, 5), CalcKey::CursorUp),
        ((0, 4), CalcKey::CursorLeft),
        ((0, 3), CalcKey::Hand),
        ((0, 2), CalcKey::Shift),
        ((0, 1), CalcKey::Diamond),
        ((0, 0), CalcKey::_2nd),
        ((1, 7), CalcKey::_3),
        ((1, 6), CalcKey::_2),
        ((1, 5), CalcKey::_1),
        ((1, 4), CalcKey::F8),
        ((1, 3), CalcKey::W),
        ((1, 2), CalcKey::S),
        ((1, 1), CalcKey::Z),
        ((2, 7), CalcKey::_6),
        ((2, 6), CalcKey::_5),
        ((2, 5), CalcKey::_4),
        ((2, 4), CalcKey::F3),
        ((2, 3), CalcKey::E),
        ((2, 2), CalcKey::D),
        ((2, 1), CalcKey::X),
        ((3, 7), CalcKey::_9),
        ((3, 6), CalcKey::_8),
        ((3, 5), CalcKey::_7),
        ((3, 4), CalcKey::F7),
        ((3, 3), CalcKey::R),
        ((3, 2), CalcKey::F),
        ((3, 1), CalcKey::C),
        ((3, 0), CalcKey::STO),
        ((4, 7), CalcKey::Comma),
        ((4, 6), CalcKey::RightParenthesis),
        ((4, 5), CalcKey::LeftParenthesis),
        ((4, 4), CalcKey::F2),
        ((4, 3), CalcKey::T),
        ((4, 2), CalcKey::G),
        ((4, 1), CalcKey::V),
        ((4, 0), CalcKey::Space),
        ((5, 7), CalcKey::TAN),
        ((5, 6), CalcKey::COS),
        ((5, 5), CalcKey::SIN),
        ((5, 4), CalcKey::F6),
        ((5, 3), CalcKey::Y),
        ((5, 2), CalcKey::H),
        ((5, 1), CalcKey::B),
        ((5, 0), CalcKey::Division),
        ((6, 7), CalcKey::P),
        ((6, 6), CalcKey::ENTER2),
        ((6, 5), CalcKey::LN),
        ((6, 4), CalcKey::F1),
        ((6, 3), CalcKey::U),
        ((6, 2), CalcKey::J),
        ((6, 1), CalcKey::N),
        ((6, 0), CalcKey::Exponentiation),
        ((7, 7), CalcKey::Multiplication),
        ((7, 6), CalcKey::APPS),
        ((7, 5), CalcKey::CLEAR),
        ((7, 4), CalcKey::F5),
        ((7, 3), CalcKey::I),
        ((7, 2), CalcKey::K),
        ((7, 1), CalcKey::M),
        ((7, 0), CalcKey::Equals),
        ((8, 6), CalcKey::ESC),
        ((8, 5), CalcKey::MODE),
        ((8, 4), CalcKey::Addition),
        ((8, 3), CalcKey::O),
        ((8, 2), CalcKey::L),
        ((8, 1), CalcKey::Theta),
        ((8, 0), CalcKey::BckSpc),
        ((9, 7), CalcKey::Negative),
        ((9, 6), CalcKey::Period),
        ((9, 5), CalcKey::_0),
        ((9, 4), CalcKey::F4),
        ((9, 3), CalcKey::Q),
        ((9, 2), CalcKey::A),
        ((9, 1), CalcKey::ENTER1),
        ((9, 0), CalcKey::Subtraction),
        ((1, 0), CalcKey::ON),
    ]
}

/// Builds this model's key table.
pub fn key_to_key_map() -> (r: Vec<KeyBinding>)
    ensures
        r@ == key_map(),
        r@.len() == KEY_COUNT,
        bindings_fit(r@, KEY_MATRIX_LEN as nat),
{
    let r = vec![
        ((0, 7), CalcKey::CursorDown),
        ((0, 6), CalcKey::CursorRight),
        ((0, 5), CalcKey::CursorUp),
        ((0, 4), CalcKey::CursorLeft),
        ((0, 3), CalcKey::Hand),
        ((0, 2), CalcKey::Shift),
        ((0, 1), CalcKey::Diamond),
        ((0, 0), CalcKey::_2nd),
        ((1, 7), CalcKey::_3),
        ((1, 6), CalcKey::_2),
        ((1, 5), CalcKey::_1),
        ((1, 4), CalcKey::F8),
        ((1, 3), CalcKey::W),
        ((1, 2), CalcKey::S),
        ((1, 1), CalcKey::Z),
        ((2, 7), CalcKey::_6),
        ((2, 6), CalcKey::_5),
        ((2, 5), CalcKey::_4),
        ((2, 4), CalcKey::F3),
        ((2, 3), CalcKey::E),
        ((2, 2), CalcKey::D),
        ((2, 1), CalcKey::X),
        ((3, 7), CalcKey::_9),
        ((3, 6), CalcKey::_8),
        ((3, 5), CalcKey::_7),
        ((3, 4), CalcKey::F7),
        ((3, 3), CalcKey::R),
        ((3, 2), CalcKey::F),
        ((3, 1), CalcKey::C),
        ((3, 0), CalcKey::STO),
        ((4, 7), CalcKey::Comma),
        ((4, 6), CalcKey::RightParenthesis),
        ((4, 5), CalcKey::LeftParenthesis),
        ((4, 4), CalcKey::F2),
        ((4, 3), CalcKey::T),
        ((4, 2), CalcKey::G),
        ((4, 1), CalcKey::V),
        ((4, 0), CalcKey::Space),
        ((5, 7), CalcKey::TAN),
        ((5, 6), CalcKey::COS),
        ((5, 5), CalcKey::SIN),
        ((5, 4), CalcKey::F6),
        ((5, 3), CalcKey::Y),
        ((5, 2), CalcKey::H),
        ((5, 1), CalcKey::B),
        ((5, 0), CalcKey::Division),
        ((6, 7), CalcKey::P),
        ((6, 6), CalcKey::ENTER2),
        ((6, 5), CalcKey::LN),
        ((6, 4), CalcKey::F1),
        ((6, 3), CalcKey::U),
        ((6, 2), CalcKey::J),
        ((6, 1), CalcKey::N),
        ((6, 0), CalcKey::Exponentiation),
        ((7, 7), CalcKey::Multiplication),
        ((7, 6), CalcKey::APPS),
        ((7, 5), CalcKey::CLEAR),
        ((7, 4), CalcKey::F5),
        ((7, 3), CalcKey::I),
        ((7, 2), CalcKey::K),
        ((7, 1), CalcKey::M),
        ((7, 0), CalcKey::Equals),
        ((8, 6), CalcKey::ESC),
        ((8, 5), CalcKey::MODE),
        ((8, 4), CalcKey::Addition),
        ((8, 3), CalcKey::O),
        ((8, 2), CalcKey::L),
        ((8, 1), CalcKey::Theta),
        ((8, 0), CalcKey::BckSpc),
        ((9, 7), CalcKey::Negative),
        ((9, 6), CalcKey::Period),
        ((9, 5), CalcKey::_0),
        ((9, 4), CalcKey::F4),
        ((9, 3), CalcKey::Q),
        ((9, 2), CalcKey::A),
        ((9, 1), CalcKey::ENTER1),
        ((9, 0), CalcKey::Subtraction),
        ((1, 0), CalcKey::ON),
    ];
    assert(r@ == key_map());
    r
}

/// Current and previous key-matrix snapshots of a TI-92 Plus.
#[derive(Clone, Copy, Debug, PartialEq, Eq)]
pub struct TI92Plus {
    key_matrix: [u8; KEY_MATRIX_LEN],
    prev_key_matrix: [u8; KEY_MATRIX_LEN],
}

impl TI92Plus {
    /// The latest snapshot.
    pub closed spec fn current(&self) -> Seq<u8> {
        self.key_matrix@
    }

    /// The snapshot before the latest one.
    pub closed spec fn previous(&self) -> Seq<u8> {
        self.prev_key_matrix@
    }

    /// Both snapshots start all zero.
    pub fn new() -> (r: TI92Plus)
        ensures
            r.current() == Seq::new(KEY_MATRIX_LEN as nat, |i: int| 0u8),
            r.previous() == Seq::new(KEY_MATRIX_LEN as nat, |i: int| 0u8),
    {
        let r = TI92Plus { key_matrix: [0; KEY_MATRIX_LEN], prev_key_matrix: [0; KEY_MATRIX_LEN] };
        assert(r.current() =~= Seq::new(KEY_MATRIX_LEN as nat, |i: int| 0u8));
        assert(r.previous() =~= Seq::new(KEY_MATRIX_LEN as nat, |i: int| 0u8));
        r
    }

    /// Takes a fresh record as the current snapshot, keeps the old one as previous,
    /// and returns the key events between the two, in table order.
    pub fn get_keys(&mut self, record: &[u8]) -> (r: Vec<KeyEvent>)
        requires
            record@.len() == KEY_MATRIX_LEN,
        ensures
            final(self).previous() == old(self).current(),
            final(self).current() == record@,
            r@ == diff_events(old(self).current(), record@, key_map()),
    {
        self.prev_key_matrix = self.key_matrix;
        let mut i: usize = 0;
        while i < KEY_MATRIX_LEN
            invariant
                i <= KEY_MATRIX_LEN,
                record@.len() == KEY_MATRIX_LEN,
                self.prev_key_matrix@ == old(self).key_matrix@,
                self.key_matrix@.len() == KEY_MATRIX_LEN,
                forall|j: int| 0 <= j < i ==> self.key_matrix@[j] == record@[j],
            decreases KEY_MATRIX_LEN - i,
        {
            self.key_matrix[i] = record[i];
            i = i + 1;
        }
        assert(self.key_matrix@ =~= record@);
        let map = key_to_key_map();
        diff_key_matrix(&self.prev_key_matrix, &self.key_matrix, map.as_slice())
    }
}

} // verus!
