use vstd::prelude::*;

verus! {

/// A mouse button the engine recognises.
#[derive(Debug, Clone, Copy, PartialEq, Eq, Structural)]
pub enum MouseCode {
    ButtonLeft,
    ButtonRight,
    ButtonMiddle,
    ButtonBack,
    ButtonForward,
}

/// A physical key the engine recognises, named after its position on a US layout.
#[derive(Debug, Clone, Copy, PartialEq, Eq, Structural)]
pub enum KeyCode {
    A, B, C, D, E, F, G, H, I, J, K, L, M,
    N, O, P, Q, R, S, T, U, V, W, X, Y, Z,
    Digit0, Digit1, Digit2, Digit3, Digit4,
    Digit5, Digit6, Digit7, Digit8, Digit9,
    Up, Down, Left, Right,
    Space, Enter, Escape, Tab, Backspace,
    ShiftLeft, ShiftRight, ControlLeft, ControlRight, AltLeft, AltRight,
    F1, F2, F3, F4, F5, F6, F7, F8, F9, F10, F11, F12,
}

} // verus!
