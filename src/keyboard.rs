//! Logical key identities, independent of the calculator model.
use vstd::prelude::*;

verus! {

/// A logical calculator key.
#[allow(non_camel_case_types)]
#[derive(Clone, Copy, Debug, PartialEq, Eq, Hash, Structural)]
pub enum CalcKey {
    CursorDown,
    CursorRight,
    CursorUp,
    CursorLeft,
    Hand,
    Shift,
    Diamond,
    _2nd,
    _3,
    _2,
    _1,
    F8,
    W,
    S,
    Z,
    _6,
    _5,
    _4,
    F3,
    E,
    D,
    X,
    _9,
    _8,
    _7,
    F7,
    R,
    F,
    C,
    STO,
    Comma,
    RightParenthesis,
    LeftParenthesis,
    F2,
    T,
    G,
    V,
    Space,
    TAN,
    COS,
    SIN,
    F6,
    Y,
    H,
    B,
    Division,
    P,
    ENTER2,
    LN,
    F1,
    U,
    J,
    N,
    Exponentiation,
    Multiplication,
    APPS,
    CLEAR,
    F5,
    I,
    K,
    M,
    Equals,
    ESC,
    MODE,
    Addition,
    O,
    L,
    Theta,
    BckSpc,
    Negative,
    Period,
    _0,
    F4,
    Q,
    A,
    ENTER1,
    Subtraction,
    ON,
    Alpha,
    CATLG,
    HOME,
    Bar,
    EE,
    VARS,
    STAT,
    PRGM,
    XCommaTCommaThetaCommaN,
    MATH,
    Inverse,
    Square,
    LOG,
    DEL,
}

/// The key whose press ends the dispatch loop.
pub const QUIT_KEY: CalcKey = CalcKey::ON;

/// Whether `(key, pressed)` is the event that ends the dispatch loop.
pub open spec fn is_quit_event(key: CalcKey, pressed: bool) -> bool {
    key == QUIT_KEY && pressed
}

/// Tells whether `(key, pressed)` is the press of the quit key.
pub fn is_quit(key: CalcKey, pressed: bool) -> (r: bool)
    ensures
        r == is_quit_event(key, pressed),
{
    key == QUIT_KEY && pressed
}

/// Number of logical keys.
pub const KEY_KINDS: usize = 92;

/// Every logical key, each once, in declaration order.
pub open spec fn all_keys_spec() -> Seq<CalcKey> {
    seq![
        CalcKey::CursorDown,
        CalcKey::CursorRight,
        CalcKey::CursorUp,
        CalcKey::CursorLeft,
        CalcKey::Hand,
        CalcKey::Shift,
        CalcKey::Diamond,
        CalcKey::_2nd,
        CalcKey::_3,
        CalcKey::_2,
        CalcKey::_1,
        CalcKey::F8,
        CalcKey::W,
        CalcKey::S,
        CalcKey::Z,
        CalcKey::_6,
        CalcKey::_5,
        CalcKey::_4,
        CalcKey::F3,
        CalcKey::E,
        CalcKey::D,
        CalcKey::X,
        CalcKey::_9,
        CalcKey::_8,
        CalcKey::_7,
        CalcKey::F7,
        CalcKey::R,
        CalcKey::F,
        CalcKey::C,
        CalcKey::STO,
        CalcKey::Comma,
        CalcKey::RightParenthesis,
        CalcKey::LeftParenthesis,
        CalcKey::F2,
        CalcKey::T,
        CalcKey::G,
        CalcKey::V,
        CalcKey::Space,
        CalcKey::TAN,
        CalcKey::COS,
        CalcKey::SIN,
        CalcKey::F6,
        CalcKey::Y,
        CalcKey::H,
        CalcKey::B,
        CalcKey::Division,
        CalcKey::P,
        CalcKey::ENTER2,
        CalcKey::LN,
        CalcKey::F1,
        CalcKey::U,
        CalcKey::J,
        CalcKey::N,
        CalcKey::Exponentiation,
        CalcKey::Multiplication,
        CalcKey::APPS,
        CalcKey::CLEAR,
        CalcKey::F5,
        CalcKey::I,
        CalcKey::K,
        CalcKey::M,
        CalcKey::Equals,
        CalcKey::ESC,
        CalcKey::MODE,
        CalcKey::Addition,
        CalcKey::O,
        CalcKey::L,
        CalcKey::Theta,
        CalcKey::BckSpc,
        CalcKey::Negative,
        CalcKey::Period,
        CalcKey::_0,
        CalcKey::F4,
        CalcKey::Q,
        CalcKey::A,
        CalcKey::ENTER1,
        CalcKey::Subtraction,
        CalcKey::ON,
        CalcKey::Alpha,
        CalcKey::CATLG,
        CalcKey::HOME,
        CalcKey::Bar,
        CalcKey::EE,
        CalcKey::VARS,
        CalcKey::STAT,
        CalcKey::PRGM,
        CalcKey::XCommaTCommaThetaCommaN,
        CalcKey::MATH,
        CalcKey::Inverse,
        CalcKey::Square,
        CalcKey::LOG,
        CalcKey::DEL,
    ]
}

/// The position of `k` in [`all_keys_spec`].
pub open spec fn key_position(k: CalcKey) -> int {
    match k {
        CalcKey::CursorDown => 0,
        CalcKey::CursorRight => 1,
        CalcKey::CursorUp => 2,
        CalcKey::CursorLeft => 3,
        CalcKey::Hand => 4,
        CalcKey::Shift => 5,
        CalcKey::Diamond => 6,
        CalcKey::_2nd => 7,
        CalcKey::_3 => 8,
        CalcKey::_2 => 9,
        CalcKey::_1 => 10,
        CalcKey::F8 => 11,
        CalcKey::W => 12,
        CalcKey::S => 13,
        CalcKey::Z => 14,
        CalcKey::_6 => 15,
        CalcKey::_5 => 16,
        CalcKey::_4 => 17,
        CalcKey::F3 => 18,
        CalcKey::E => 19,
        CalcKey::D => 20,
        CalcKey::X => 21,
        CalcKey::_9 => 22,
        CalcKey::_8 => 23,
        CalcKey::_7 => 24,
        CalcKey::F7 => 25,
        CalcKey::R => 26,
        CalcKey::F => 27,
        CalcKey::C => 28,
        CalcKey::STO => 29,
        CalcKey::Comma => 30,
        CalcKey::RightParenthesis => 31,
        CalcKey::LeftParenthesis => 32,
        CalcKey::F2 => 33,
        CalcKey::T => 34,
        CalcKey::G => 35,
        CalcKey::V => 36,
        CalcKey::Space => 37,
        CalcKey::TAN => 38,
        CalcKey::COS => 39,
        CalcKey::SIN => 40,
        CalcKey::F6 => 41,
        CalcKey::Y => 42,
        CalcKey::H => 43,
        CalcKey::B => 44,
        CalcKey::Division => 45,
        CalcKey::P => 46,
        CalcKey::ENTER2 => 47,
        CalcKey::LN => 48,
        CalcKey::F1 => 49,
        CalcKey::U => 50,
        CalcKey::J => 51,
        CalcKey::N => 52,
        CalcKey::Exponentiation => 53,
        CalcKey::Multiplication => 54,
        CalcKey::APPS => 55,
        CalcKey::CLEAR => 56,
        CalcKey::F5 => 57,
        CalcKey::I => 58,
        CalcKey::K => 59,
        CalcKey::M => 60,
        CalcKey::Equals => 61,
        CalcKey::ESC => 62,
        CalcKey::MODE => 63,
        CalcKey::Addition => 64,
        CalcKey::O => 65,
        CalcKey::L => 66,
        CalcKey::Theta => 67,
        CalcKey::BckSpc => 68,
        CalcKey::Negative => 69,
        CalcKey::Period => 70,
        CalcKey::_0 => 71,
        CalcKey::F4 => 72,
        CalcKey::Q => 73,
        CalcKey::A => 74,
        CalcKey::ENTER1 => 75,
        CalcKey::Subtraction => 76,
        CalcKey::ON => 77,
        CalcKey::Alpha => 78,
        CalcKey::CATLG => 79,
        CalcKey::HOME => 80,
        CalcKey::Bar => 81,
        CalcKey::EE => 82,
        CalcKey::VARS => 83,
        CalcKey::STAT => 84,
        CalcKey::PRGM => 85,
        CalcKey::XCommaTCommaThetaCommaN => 86,
        CalcKey::MATH => 87,
        CalcKey::Inverse => 88,
        CalcKey::Square => 89,
        CalcKey::LOG => 90,
        CalcKey::DEL => 91,
    }
}

/// Lists every logical key, each once, in declaration order.
pub fn all_keys() -> (r: Vec<CalcKey>)
    ensures
        r@ == all_keys_spec(),
        r@.len() == KEY_KINDS,
        forall|k: CalcKey| 0 <= #[trigger] key_position(k) < KEY_KINDS && r@[key_position(k)] == k,
{
    let r = vec![
        CalcKey::CursorDown,
        CalcKey::CursorRight,
        CalcKey::CursorUp,
        CalcKey::CursorLeft,
        CalcKey::Hand,
        CalcKey::Shift,
        CalcKey::Diamond,
        CalcKey::_2nd,
        CalcKey::_3,
        CalcKey::_2,
        CalcKey::_1,
        CalcKey::F8,
        CalcKey::W,
        CalcKey::S,
        CalcKey::Z,
        CalcKey::_6,
        CalcKey::_5,
        CalcKey::_4,
        CalcKey::F3,
        CalcKey::E,
        CalcKey::D,
        CalcKey::X,
        CalcKey::_9,
        CalcKey::_8,
        CalcKey::_7,
        CalcKey::F7,
        CalcKey::R,
        CalcKey::F,
        CalcKey::C,
        CalcKey::STO,
        CalcKey::Comma,
        CalcKey::RightParenthesis,
        CalcKey::LeftParenthesis,
        CalcKey::F2,
        CalcKey::T,
        CalcKey::G,
        CalcKey::V,
        CalcKey::Space,
        CalcKey::TAN,
        CalcKey::COS,
        CalcKey::SIN,
        CalcKey::F6,
        CalcKey::Y,
        CalcKey::H,
        CalcKey::B,
        CalcKey::Division,
        CalcKey::P,
        CalcKey::ENTER2,
        CalcKey::LN,
        CalcKey::F1,
        CalcKey::U,
        CalcKey::J,
        CalcKey::N,
        CalcKey::Exponentiation,
        CalcKey::Multiplication,
        CalcKey::APPS,
        CalcKey::CLEAR,
        CalcKey::F5,
        CalcKey::I,
        CalcKey::K,
        CalcKey::M,
        CalcKey::Equals,
        CalcKey::ESC,
        CalcKey::MODE,
        CalcKey::Addition,
        CalcKey::O,
        CalcKey::L,
        CalcKey::Theta,
        CalcKey::BckSpc,
        CalcKey::Negative,
        CalcKey::Period,
        CalcKey::_0,
        CalcKey::F4,
        CalcKey::Q,
        CalcKey::A,
        CalcKey::ENTER1,
        CalcKey::Subtraction,
        CalcKey::ON,
        CalcKey::Alpha,
        CalcKey::CATLG,
        CalcKey::HOME,
        CalcKey::Bar,
        CalcKey::EE,
        CalcKey::VARS,
        CalcKey::STAT,
        CalcKey::PRGM,
        CalcKey::XCommaTCommaThetaCommaN,
        CalcKey::MATH,
        CalcKey::Inverse,
        CalcKey::Square,
        CalcKey::LOG,
        CalcKey::DEL,
    ];
    assert(r@ == all_keys_spec());
    r
}

} // verus!
