use least::keys::{Action, Key, KeyState};

fn feed(keys: &[Key]) -> (KeyState, Action) {
    let mut state = KeyState::Normal;
    let mut action = Action::NoOp;
    for key in keys {
        let (next, a) = state.next(*key);
        state = next;
        action = a;
    }
    (state, action)
}

#[test]
fn g_g_goes_to_top() {
    let (state, action) = feed(&[Key::Char('g'), Key::Char('g')]);
    assert_eq!(action, Action::GoToTop);
    assert_eq!(state, KeyState::Normal);
}

#[test]
fn g_digit_enter_goes_to_line() {
    let (state, action) = feed(&[Key::Char('g'), Key::Char('5'), Key::Enter]);
    assert_eq!(action, Action::GoToLine(5));
    assert_eq!(state, KeyState::Normal);
}

#[test]
fn digits_accumulate() {
    let (state, action) = feed(&[Key::Char('g'), Key::Char('1'), Key::Char('2'), Key::Char('7')]);
    assert_eq!(state, KeyState::WaitingGNumber(127));
    assert_eq!(action, Action::NoOp);
    assert_eq!(state.next(Key::Enter), (KeyState::Normal, Action::GoToLine(127)));
}

#[test]
fn huge_line_number_saturates() {
    let (state, _) = KeyState::WaitingGNumber(usize::MAX / 10).next(Key::Char('9'));
    assert_eq!(state, KeyState::WaitingGNumber(usize::MAX));
    let (state, _) = state.next(Key::Char('0'));
    assert_eq!(state, KeyState::WaitingGNumber(usize::MAX));
}

#[test]
fn single_keys_in_normal_state() {
    let n = KeyState::Normal;
    assert_eq!(n.next(Key::Char('q')), (KeyState::Normal, Action::Quit));
    assert_eq!(n.next(Key::Esc), (KeyState::Normal, Action::Quit));
    assert_eq!(n.next(Key::Char('d')), (KeyState::Normal, Action::ScrollDownHalfScreen));
    assert_eq!(n.next(Key::Char('u')), (KeyState::Normal, Action::ScrollUpHalfScreen));
    assert_eq!(n.next(Key::Char('f')), (KeyState::Normal, Action::ScrollDownScreen));
    assert_eq!(n.next(Key::Char('b')), (KeyState::Normal, Action::ScrollUpScreen));
    assert_eq!(n.next(Key::Char('j')), (KeyState::Normal, Action::ScrollDownOneLine));
    assert_eq!(n.next(Key::Char('k')), (KeyState::Normal, Action::ScrollUpOneLine));
    assert_eq!(n.next(Key::Char('G')), (KeyState::Normal, Action::GoToBottom));
    assert_eq!(n.next(Key::Char('g')), (KeyState::WaitingG, Action::NoOp));
    assert_eq!(n.next(Key::Char('x')), (KeyState::Normal, Action::NoOp));
    assert_eq!(n.next(Key::Enter), (KeyState::Normal, Action::NoOp));
}

#[test]
fn abandoned_sequences_return_to_normal() {
    assert_eq!(KeyState::WaitingG.next(Key::Char('x')), (KeyState::Normal, Action::NoOp));
    assert_eq!(KeyState::WaitingG.next(Key::Enter), (KeyState::Normal, Action::NoOp));
    assert_eq!(KeyState::WaitingGNumber(3).next(Key::Char('q')), (KeyState::Normal, Action::NoOp));
    assert_eq!(KeyState::WaitingGNumber(3).next(Key::Other), (KeyState::Normal, Action::NoOp));
}

#[test]
fn default_state_is_normal() {
    assert_eq!(KeyState::default(), KeyState::Normal);
}
