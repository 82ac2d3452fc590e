//! The QWERTY-to-Dvorak substitution table over the alphanumeric and
//! punctuation block of the keyboard.

use vstd::prelude::*;
use crate::codes::{
    KEY_APOSTROPHE,
    KEY_B,
    KEY_C,
    KEY_COMMA,
    KEY_D,
    KEY_DOT,
    KEY_E,
    KEY_EQUAL,
    KEY_F,
    KEY_G,
    KEY_H,
    KEY_I,
    KEY_J,
    KEY_K,
    KEY_L,
    KEY_LEFTBRACE,
    KEY_M,
    KEY_MINUS,
    KEY_N,
    KEY_O,
    KEY_P,
    KEY_Q,
    KEY_R,
    KEY_RIGHTBRACE,
    KEY_S,
    KEY_SEMICOLON,
    KEY_SLASH,
    KEY_T,
    KEY_U,
    KEY_V,
    KEY_W,
    KEY_X,
    KEY_Y,
    KEY_Z,
};

verus! {

/// The block of key codes that the table rewrites: the letter, digit-row
/// punctuation and bracket keys whose Dvorak meaning differs from QWERTY
/// (and `M`, which keeps its place).
pub open spec fn covered(k: u16) -> bool {
    ||| k == KEY_MINUS
    ||| k == KEY_EQUAL
    ||| k == KEY_Q
    ||| k == KEY_W
    ||| k == KEY_E
    ||| k == KEY_R
    ||| k == KEY_T
    ||| k == KEY_Y
    ||| k == KEY_U
    ||| k == KEY_I
    ||| k == KEY_O
    ||| k == KEY_P
    ||| k == KEY_LEFTBRACE
    ||| k == KEY_RIGHTBRACE
    ||| k == KEY_S
    ||| k == KEY_D
    ||| k == KEY_F
    ||| k == KEY_G
    ||| k == KEY_H
    ||| k == KEY_J
    ||| k == KEY_K
    ||| k == KEY_L
    ||| k == KEY_SEMICOLON
    ||| k == KEY_APOSTROPHE
    ||| k == KEY_Z
    ||| k == KEY_X
    ||| k == KEY_C
    ||| k == KEY_V
    ||| k == KEY_B
    ||| k == KEY_N
    ||| k == KEY_M
    ||| k == KEY_COMMA
    ||| k == KEY_DOT
    ||| k == KEY_SLASH
}

/// The key that a physical QWERTY key stands for under the Dvorak layout;
/// every code outside the covered block stands for itself.
pub open spec fn dvorak_of(k: u16) -> u16 {
    if k == KEY_MINUS {
        KEY_LEFTBRACE
    } else if k == KEY_EQUAL {
        KEY_RIGHTBRACE
    } else if k == KEY_Q {
        KEY_APOSTROPHE
    } else if k == KEY_W {
        KEY_COMMA
    } else if k == KEY_E {
        KEY_DOT
    } else if k == KEY_R {
        KEY_P
    } else if k == KEY_T {
        KEY_Y
    } else if k == KEY_Y {
        KEY_F
    } else if k == KEY_U {
        KEY_G
    } else if k == KEY_I {
        KEY_C
    } else if k == KEY_O {
        KEY_R
    } else if k == KEY_P {
        KEY_L
    } else if k == KEY_LEFTBRACE {
        KEY_SLASH
    } else if k == KEY_RIGHTBRACE {
        KEY_EQUAL
    } else if k == KEY_S {
        KEY_O
    } else if k == KEY_D {
        KEY_E
    } else if k == KEY_F {
        KEY_U
    } else if k == KEY_G {
        KEY_I
    } else if k == KEY_H {
        KEY_D
    } else if k == KEY_J {
        KEY_H
    } else if k == KEY_K {
        KEY_T
    } else if k == KEY_L {
        KEY_N
    } else if k == KEY_SEMICOLON {
        KEY_S
    } else if k == KEY_APOSTROPHE {
        KEY_MINUS
    } else if k == KEY_Z {
        KEY_SEMICOLON
    } else if k == KEY_X {
        KEY_Q
    } else if k == KEY_C {
        KEY_J
    } else if k == KEY_V {
        KEY_K
    } else if k == KEY_B {
        KEY_X
    } else if k == KEY_N {
        KEY_B
    } else if k == KEY_M {
        KEY_M
    } else if k == KEY_COMMA {
        KEY_W
    } else if k == KEY_DOT {
        KEY_V
    } else if k == KEY_SLASH {
        KEY_Z
    } else {
        k
    }
}

/// The physical QWERTY key that produces a given Dvorak key: the inverse
/// of `dvorak_of` on the covered block.
pub open spec fn qwerty_of(k: u16) -> u16 {
    if k == KEY_LEFTBRACE {
        KEY_MINUS
    } else if k == KEY_RIGHTBRACE {
        KEY_EQUAL
    } else if k == KEY_APOSTROPHE {
        KEY_Q
    } else if k == KEY_COMMA {
        KEY_W
    } else if k == KEY_DOT {
        KEY_E
    } else if k == KEY_P {
        KEY_R
    } else if k == KEY_Y {
        KEY_T
    } else if k == KEY_F {
        KEY_Y
    } else if k == KEY_G {
        KEY_U
    } else if k == KEY_C {
        KEY_I
    } else if k == KEY_R {
        KEY_O
    } else if k == KEY_L {
        KEY_P
    } else if k == KEY_SLASH {
        KEY_LEFTBRACE
    } else if k == KEY_EQUAL {
        KEY_RIGHTBRACE
    } else if k == KEY_O {
        KEY_S
    } else if k == KEY_E {
        KEY_D
    } else if k == KEY_U {
        KEY_F
    } else if k == KEY_I {
        KEY_G
    } else if k == KEY_D {
        KEY_H
    } else if k == KEY_H {
        KEY_J
    } else if k == KEY_T {
        KEY_K
    } else if k == KEY_N {
        KEY_L
    } else if k == KEY_S {
        KEY_SEMICOLON
    } else if k == KEY_MINUS {
        KEY_APOSTROPHE
    } else if k == KEY_SEMICOLON {
        KEY_Z
    } else if k == KEY_Q {
        KEY_X
    } else if k == KEY_J {
        KEY_C
    } else if k == KEY_K {
        KEY_V
    } else if k == KEY_X {
        KEY_B
    } else if k == KEY_B {
        KEY_N
    } else if k == KEY_M {
        KEY_M
    } else if k == KEY_W {
        KEY_COMMA
    } else if k == KEY_V {
        KEY_DOT
    } else if k == KEY_Z {
        KEY_SLASH
    } else {
        k
    }
}

/// Rewrites a physical key code to the code of the same position under the
/// Dvorak layout; codes outside the covered block are returned unchanged.
pub fn remap(code: u16) -> (r: u16)
    ensures
        r == dvorak_of(code),
        !covered(code) ==> r == code,
{
    if code == KEY_MINUS {
        KEY_LEFTBRACE
    } else if code == KEY_EQUAL {
        KEY_RIGHTBRACE
    } else if code == KEY_Q {
        KEY_APOSTROPHE
    } else if code == KEY_W {
        KEY_COMMA
    } else if code == KEY_E {
        KEY_DOT
    } else if code == KEY_R {
        KEY_P
    } else if code == KEY_T {
        KEY_Y
    } else if code == KEY_Y {
        KEY_F
    } else if code == KEY_U {
        KEY_G
    } else if code == KEY_I {
        KEY_C
    } else if code == KEY_O {
        KEY_R
    } else if code == KEY_P {
        KEY_L
    } else if code == KEY_LEFTBRACE {
        KEY_SLASH
    } else if code == KEY_RIGHTBRACE {
        KEY_EQUAL
    } else if code == KEY_S {
        KEY_O
    } else if code == KEY_D {
        KEY_E
    } else if code == KEY_F {
        KEY_U
    } else if code == KEY_G {
        KEY_I
    } else if code == KEY_H {
        KEY_D
    } else if code == KEY_J {
        KEY_H
    } else if code == KEY_K {
        KEY_T
    } else if code == KEY_L {
        KEY_N
    } else if code == KEY_SEMICOLON {
        KEY_S
    } else if code == KEY_APOSTROPHE {
        KEY_MINUS
    } else if code == KEY_Z {
        KEY_SEMICOLON
    } else if code == KEY_X {
        KEY_Q
    } else if code == KEY_C {
        KEY_J
    } else if code == KEY_V {
        KEY_K
    } else if code == KEY_B {
        KEY_X
    } else if code == KEY_N {
        KEY_B
    } else if code == KEY_M {
        KEY_M
    } else if code == KEY_COMMA {
        KEY_W
    } else if code == KEY_DOT {
        KEY_V
    } else if code == KEY_SLASH {
        KEY_Z
    } else {
        code
    }
}

/// On the covered block the table is a bijection: it maps the block into
/// itself, no two keys of the block share an image, and every key of the
/// block is the image of one (its QWERTY origin).
pub proof fn lemma_remap_bijective()
    ensures
        forall|k: u16| #[trigger] covered(k) ==> covered(dvorak_of(k)),
        forall|a: u16, b: u16|
            covered(a) && covered(b) && #[trigger] dvorak_of(a) == #[trigger] dvorak_of(b) ==> a == b,
        forall|k: u16| #[trigger] covered(k) ==> covered(qwerty_of(k)) && dvorak_of(qwerty_of(k)) == k,
{
    assert forall|k: u16| #[trigger] covered(k) implies covered(qwerty_of(k)) && dvorak_of(qwerty_of(k)) == k by {}
    assert forall|k: u16| #[trigger] covered(k) implies qwerty_of(dvorak_of(k)) == k by {}
}

/// Outside the covered block the table is the identity.
pub proof fn lemma_remap_identity_outside(k: u16)
    requires
        !covered(k),
    ensures
        dvorak_of(k) == k,
{
}

} // verus!
