use vstd::prelude::*;

verus! {

/// A key press, reduced to what the key bindings distinguish.
#[derive(Clone, Copy, Debug, PartialEq, Eq, Structural)]
pub enum Key {
    Char(char),
    Enter,
    Esc,
    Other,
}

/// Progress through a multi-key sequence (`gg`, `g<digits><Enter>`).
#[derive(Clone, Copy, Debug, PartialEq, Eq, Structural)]
pub enum KeyState {
    Normal,
    WaitingG,
    WaitingGNumber(usize),
}

/// What a key sequence asks the viewport to do.
#[derive(Clone, Copy, Debug, PartialEq, Eq, Structural)]
pub enum Action {
    GoToMain,
    GoToTop,
    GoToBottom,
    GoToLine(usize),
    ScrollUpOneLine,
    ScrollDownOneLine,
    ScrollUpHalfScreen,
    ScrollDownHalfScreen,
    ScrollUpScreen,
    ScrollDownScreen,
    NoOp,
    Quit,
}

impl Default for KeyState {
    fn default() -> (r: KeyState)
        ensures
            r == KeyState::Normal,
    {
        KeyState::Normal
    }
}

pub open spec fn is_digit(c: char) -> bool {
    '0' <= c <= '9'
}

pub open spec fn digit_value(c: char) -> nat {
    (c as u32 - '0' as u32) as nat
}

/// `n * 10 + d`, held at `usize::MAX` once it no longer fits.
pub open spec fn append_digit(n: nat, d: nat) -> nat {
    let v = n * 10 + d;
    if v > usize::MAX {
        usize::MAX as nat
    } else {
        v
    }
}

/// The transition table of the key-sequence machine.
pub open spec fn next_spec(state: KeyState, key: Key) -> (KeyState, Action) {
    match state {
        KeyState::Normal => match key {
            Key::Esc | Key::Char('q') => (KeyState::Normal, Action::Quit),
            Key::Char('d') => (KeyState::Normal, Action::ScrollDownHalfScreen),
            Key::Char('u') => (KeyState::Normal, Action::ScrollUpHalfScreen),
            Key::Char('f') => (KeyState::Normal, Action::ScrollDownScreen),
            Key::Char('b') => (KeyState::Normal, Action::ScrollUpScreen),
            Key::Char('j') => (KeyState::Normal, Action::ScrollDownOneLine),
            Key::Char('k') => (KeyState::Normal, Action::ScrollUpOneLine),
            Key::Char('g') => (KeyState::WaitingG, Action::NoOp),
            Key::Char('G') => (KeyState::Normal, Action::GoToBottom),
            _ => (KeyState::Normal, Action::NoOp),
        },
        KeyState::WaitingG => match key {
            Key::Char('g') => (KeyState::Normal, Action::GoToTop),
            Key::Char(c) if is_digit(c) => (
                KeyState::WaitingGNumber(digit_value(c) as usize),
                Action::NoOp,
            ),
            _ => (KeyState::Normal, Action::NoOp),
        },
        KeyState::WaitingGNumber(n) => match key {
            Key::Char(c) if is_digit(c) => (
                KeyState::WaitingGNumber(append_digit(n as nat, digit_value(c)) as usize),
                Action::NoOp,
            ),
            Key::Enter => (KeyState::Normal, Action::GoToLine(n)),
            _ => (KeyState::Normal, Action::NoOp),
        },
    }
}

fn ascii_digit(c: char) -> (r: Option<usize>)
    ensures
        r == (if is_digit(c) {
            Some(digit_value(c) as usize)
        } else {
            Option::<usize>::None
        }),
{
    if '0' <= c && c <= '9' {
        Some((c as u32 - '0' as u32) as usize)
    } else {
        Option::None
    }
}

impl KeyState {
    /// One step of the key-sequence machine: the state that follows `key`
    /// and the action it completes, if any.
    pub fn next(self, key: Key) -> (r: (KeyState, Action))
        ensures
            r == next_spec(self, key),
    {
        match self {
            KeyState::Normal => match key {
                Key::Esc | Key::Char('q') => (KeyState::Normal, Action::Quit),
                Key::Char('d') => (KeyState::Normal, Action::ScrollDownHalfScreen),
                Key::Char('u') => (KeyState::Normal, Action::ScrollUpHalfScreen),
                Key::Char('f') => (KeyState::Normal, Action::ScrollDownScreen),
                Key::Char('b') => (KeyState::Normal, Action::ScrollUpScreen),
                Key::Char('j') => (KeyState::Normal, Action::ScrollDownOneLine),
                Key::Char('k') => (KeyState::Normal, Action::ScrollUpOneLine),
                Key::Char('g') => (KeyState::WaitingG, Action::NoOp),
                Key::Char('G') => (KeyState::Normal, Action::GoToBottom),
                _ => (KeyState::Normal, Action::NoOp),
            },
            KeyState::WaitingG => match key {
                Key::Char('g') => (KeyState::Normal, Action::GoToTop),
                Key::Char(c) => match ascii_digit(c) {
                    Some(d) => (KeyState::WaitingGNumber(d), Action::NoOp),
                    Option::None => (KeyState::Normal, Action::NoOp),
                },
                _ => (KeyState::Normal, Action::NoOp),
            },
            KeyState::WaitingGNumber(n) => match key {
                Key::Char(c) => match ascii_digit(c) {
                    Some(d) => {
                        let m = match n.checked_mul(10) {
                            Some(t) => t.saturating_add(d),
                            Option::None => usize::MAX,
                        };
                        (KeyState::WaitingGNumber(m), Action::NoOp)
                    },
                    Option::None => (KeyState::Normal, Action::NoOp),
                },
                Key::Enter => (KeyState::Normal, Action::GoToLine(n)),
                _ => (KeyState::Normal, Action::NoOp),
            },
        }
    }
}

} // verus!
