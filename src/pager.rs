use vstd::prelude::*;

use std::path::PathBuf;

use crate::event::{Event, TermEvent};
use crate::input::Input;
use crate::keys::{next_spec, Action, Key, KeyState};
use crate::overstrike::StyledSpan;
use crate::store::{after_new_lines, strings_view, OpenedInput, StoreView};

verus! {

/// The command line: the files to page through.
#[derive(Debug)]
pub struct Cli {
    pub files: Vec<PathBuf>,
}

impl Default for Cli {
    fn default() -> (r: Cli)
        ensures
            r.files@.len() == 0,
    {
        Cli { files: Vec::new() }
    }
}

/// The terminal's size in cells.
#[derive(Clone, Copy, Debug, PartialEq, Eq, Structural)]
pub struct Size {
    pub width: u16,
    pub height: u16,
}

impl Size {
    pub fn new(width: u16, height: u16) -> (r: Size)
        ensures
            r == (Size { width, height }),
    {
        Size { width, height }
    }
}

impl Default for Size {
    fn default() -> (r: Size)
        ensures
            r == (Size { width: 0, height: 0 }),
    {
        Size { width: 0, height: 0 }
    }
}

#[derive(Clone, Copy, Debug, PartialEq, Eq, Structural)]
pub enum AppMode {
    Main,
    Search,
    Help,
    Terminated,
}

impl Default for AppMode {
    fn default() -> (r: AppMode)
        ensures
            r == AppMode::Main,
    {
        AppMode::Main
    }
}

/// The highest top line that still fills the screen: `total - height`, or 0.
pub open spec fn max_top(total: nat, height: nat) -> nat {
    if total > height {
        (total - height) as nat
    } else {
        0
    }
}

/// `t` held within `[0, max]`.
pub open spec fn clamp_top(t: int, max: nat) -> nat {
    if t < 0 {
        0
    } else if t > max {
        max
    } else {
        t as nat
    }
}

/// The actions that move the viewport.
pub open spec fn is_navigation(a: Action) -> bool {
    !(a is GoToMain || a is NoOp || a is Quit)
}

/// The pager's state: mode, stored lines, top line of the viewport, key
/// sequence in progress and terminal size.
pub struct AppView {
    pub mode: AppMode,
    pub store: StoreView,
    pub top: nat,
    pub key_state: KeyState,
    pub width: nat,
    pub height: nat,
}

impl AppView {
    pub open spec fn max_top(self) -> nat {
        max_top(self.store.lines.len(), self.height)
    }

    /// The top line moved to `t`, held within range.
    pub open spec fn with_top(self, t: int) -> AppView {
        AppView { top: clamp_top(t, self.max_top()), ..self }
    }

    /// The state after an action.
    pub open spec fn after_action(self, a: Action) -> AppView {
        match a {
            Action::GoToTop => self.with_top(0),
            Action::GoToBottom => self.with_top(self.max_top() as int),
            Action::GoToLine(n) => self.with_top(n as int),
            Action::ScrollUpOneLine => self.with_top(self.top - 1),
            Action::ScrollDownOneLine => self.with_top(self.top + 1int),
            Action::ScrollUpHalfScreen => self.with_top(self.top - self.height / 2),
            Action::ScrollDownHalfScreen => self.with_top(self.top as int + self.height / 2),
            Action::ScrollUpScreen => self.with_top(self.top - self.height),
            Action::ScrollDownScreen => self.with_top(self.top as int + self.height),
            Action::Quit => AppView { mode: AppMode::Terminated, ..self },
            Action::GoToMain | Action::NoOp => self,
        }
    }

    /// The state after the terminal is resized: the new size first, then
    /// the top line held within the new range.
    pub open spec fn after_resize(self, width: nat, height: nat) -> AppView {
        let v = AppView { width, height, ..self };
        AppView { top: clamp_top(v.top as int, v.max_top()), ..v }
    }

    /// The state after a key: the key machine steps, then its action applies.
    pub open spec fn after_key(self, key: Key) -> AppView {
        let (ks, a) = next_spec(self.key_state, key);
        AppView { key_state: ks, ..self }.after_action(a)
    }

    pub open spec fn after_term_event(self, ev: TermEvent) -> AppView {
        match ev {
            TermEvent::Key { key, press } => if press {
                self.after_key(key)
            } else {
                self
            },
            TermEvent::Resize(columns, rows) => self.after_resize(columns as nat, rows as nat),
            TermEvent::Other => self,
        }
    }
}

/// Every viewport operation leaves the top line within
/// `[0, max(0, total - height)]`, whatever it was before; the other actions
/// keep a top line that was already within range there.
pub proof fn lemma_top_stays_in_range(v: AppView, a: Action)
    requires
        is_navigation(a) || v.top <= v.max_top(),
    ensures
        v.after_action(a).top <= v.after_action(a).max_top(),
{
}

/// A resize holds the top line within the range of the new size.
pub proof fn lemma_resize_keeps_top_in_range(v: AppView, width: nat, height: nat)
    ensures
        v.after_resize(width, height).top <= v.after_resize(width, height).max_top(),
{
}

/// Going to the top twice leaves the same state as going there once.
pub proof fn lemma_go_to_top_idempotent(v: AppView)
    ensures
        v.after_action(Action::GoToTop).after_action(Action::GoToTop) == v.after_action(
            Action::GoToTop,
        ),
{
}

/// Going to the bottom when already there changes nothing.
pub proof fn lemma_go_to_bottom_at_bottom(v: AppView)
    requires
        v.top == v.max_top(),
    ensures
        v.after_action(Action::GoToBottom) == v,
{
}

/// The main application's state, owned by the main loop.
pub struct App {
    cli: Cli,
    mode: AppMode,
    input: OpenedInput,
    current_line: usize,
    key_state: KeyState,
    term_size: Size,
}

impl View for App {
    type V = AppView;

    closed spec fn view(&self) -> AppView {
        AppView {
            mode: self.mode,
            store: self.input@,
            top: self.current_line as nat,
            key_state: self.key_state,
            width: self.term_size.width as nat,
            height: self.term_size.height as nat,
        }
    }
}

impl App {
    /// The store is consistent and the top line is within range.
    pub closed spec fn wf(&self) -> bool {
        &&& self.input.wf()
        &&& self.current_line <= self@.max_top()
    }

    pub closed spec fn cli(&self) -> &Cli {
        &self.cli
    }

    pub fn new(cli: Cli) -> (r: App)
        ensures
            r.wf(),
            r.cli() == cli,
            r@.mode == AppMode::Main,
            r@.store.lines.len() == 0,
            !r@.store.reached_eof,
            r@.top == 0,
            r@.key_state == KeyState::Normal,
            r@.width == 0,
            r@.height == 0,
    {
        App {
            cli,
            mode: AppMode::Main,
            input: OpenedInput::new(),
            current_line: 0,
            key_state: KeyState::Normal,
            term_size: Size::new(0, 0),
        }
    }

    /// The inputs that the command line names: standard input when it
    /// names no file.
    pub fn inputs(&self) -> (r: Vec<Input>)
        ensures
            self.cli().files@.len() == 0 ==> r@.len() == 1 && r@[0].kind is StdIn,
            self.cli().files@.len() > 0 ==> r@.len() == self.cli().files@.len() && forall|i: int|
                0 <= i < r@.len() ==> (#[trigger] r@[i]).kind == crate::input::InputKind::OrdinaryFile(
                    self.cli().files@[i],
                ),
    {
        let mut file_input: Vec<Input> = Vec::new();
        if self.cli.files.len() == 0 {
            file_input.push(Input::stdin());
            return file_input;
        }
        let mut i: usize = 0;
        while i < self.cli.files.len()
            invariant
                i <= self.cli.files@.len(),
                file_input@.len() == i,
                forall|j: int|
                    0 <= j < i ==> (#[trigger] file_input@[j]).kind
                        == crate::input::InputKind::OrdinaryFile(self.cli.files@[j]),
            decreases self.cli.files@.len() - i,
        {
            file_input.push(Input::ordinary_file(self.cli.files[i].clone()));
            i = i + 1;
        }
        file_input
    }

    pub fn mode(&self) -> (r: AppMode)
        ensures
            r == self@.mode,
    {
        self.mode
    }

    pub fn current_line(&self) -> (r: usize)
        ensures
            r == self@.top,
    {
        self.current_line
    }

    pub fn key_state(&self) -> (r: KeyState)
        ensures
            r == self@.key_state,
    {
        self.key_state
    }

    pub fn term_size(&self) -> (r: Size)
        ensures
            r.width == self@.width,
            r.height == self@.height,
    {
        self.term_size
    }

    pub fn opened_input(&self) -> (r: &OpenedInput)
        ensures
            r@ == self@.store,
            self.wf() ==> r.wf(),
    {
        &self.input
    }

    pub fn term_half_height(&self) -> (r: usize)
        ensures
            r == self@.height / 2,
    {
        (self.term_size.height / 2) as usize
    }

    pub fn term_height(&self) -> (r: usize)
        ensures
            r == self@.height,
    {
        self.term_size.height as usize
    }

    /// The highest top line that still fills the screen.
    pub fn current_max_line(&self) -> (r: usize)
        requires
            self.wf(),
        ensures
            r == self@.max_top(),
    {
        self.input.current_total_lines().saturating_sub(self.term_height())
    }

    /// Moves the top line to `t`, held within range.
    fn set_top(&mut self, t: usize)
        requires
            old(self).input.wf(),
        ensures
            final(self).wf(),
            final(self)@ == old(self)@.with_top(t as int),
            final(self).cli == old(self).cli,
            old(self)@.max_top() <= usize::MAX,
    {
        let m = self.input.current_total_lines().saturating_sub(self.term_height());
        self.current_line = if t < m {
            t
        } else {
            m
        };
    }

    pub fn quit(&mut self)
        ensures
            final(self)@ == old(self)@.after_action(Action::Quit),
            final(self).cli() == old(self).cli(),
            old(self).wf() ==> final(self).wf(),
    {
        self.mode = AppMode::Terminated;
    }

    pub fn go_to_top(&mut self)
        requires
            old(self).wf(),
        ensures
            final(self).wf(),
            final(self)@ == old(self)@.after_action(Action::GoToTop),
            final(self).cli() == old(self).cli(),
    {
        self.set_top(0);
    }

    pub fn go_to_bottom(&mut self)
        requires
            old(self).wf(),
        ensures
            final(self).wf(),
            final(self)@ == old(self)@.after_action(Action::GoToBottom),
            final(self).cli() == old(self).cli(),
    {
        let m = self.current_max_line();
        self.set_top(m);
    }

    pub fn go_to_line(&mut self, line: usize)
        requires
            old(self).wf(),
        ensures
            final(self).wf(),
            final(self)@ == old(self)@.after_action(Action::GoToLine(line)),
            final(self).cli() == old(self).cli(),
    {
        self.set_top(line);
    }

    pub fn scroll_up_one_line(&mut self)
        requires
            old(self).wf(),
        ensures
            final(self).wf(),
            final(self)@ == old(self)@.after_action(Action::ScrollUpOneLine),
            final(self).cli() == old(self).cli(),
    {
        let t = self.current_line.saturating_sub(1);
        self.set_top(t);
    }

    pub fn scroll_down_one_line(&mut self)
        requires
            old(self).wf(),
        ensures
            final(self).wf(),
            final(self)@ == old(self)@.after_action(Action::ScrollDownOneLine),
            final(self).cli() == old(self).cli(),
    {
        let t = self.current_line.saturating_add(1);
        self.set_top(t);
    }

    pub fn scroll_up_half_screen(&mut self)
        requires
            old(self).wf(),
        ensures
            final(self).wf(),
            final(self)@ == old(self)@.after_action(Action::ScrollUpHalfScreen),
            final(self).cli() == old(self).cli(),
    {
        let t = self.current_line.saturating_sub(self.term_half_height());
        self.set_top(t);
    }

    pub fn scroll_down_half_screen(&mut self)
        requires
            old(self).wf(),
        ensures
            final(self).wf(),
            final(self)@ == old(self)@.after_action(Action::ScrollDownHalfScreen),
            final(self).cli() == old(self).cli(),
    {
        let t = self.current_line.saturating_add(self.term_half_height());
        self.set_top(t);
    }

    pub fn scroll_up_screen(&mut self)
        requires
            old(self).wf(),
        ensures
            final(self).wf(),
            final(self)@ == old(self)@.after_action(Action::ScrollUpScreen),
            final(self).cli() == old(self).cli(),
    {
        let t = self.current_line.saturating_sub(self.term_height());
        self.set_top(t);
    }

    pub fn scroll_down_screen(&mut self)
        requires
            old(self).wf(),
        ensures
            final(self).wf(),
            final(self)@ == old(self)@.after_action(Action::ScrollDownScreen),
            final(self).cli() == old(self).cli(),
    {
        let t = self.current_line.saturating_add(self.term_height());
        self.set_top(t);
    }

    /// Applies an action to the viewport or the mode.
    pub fn on_action(&mut self, action: Action)
        requires
            old(self).wf(),
        ensures
            final(self).wf(),
            final(self)@ == old(self)@.after_action(action),
            final(self).cli() == old(self).cli(),
    {
        match action {
            Action::GoToMain => {},
            Action::GoToTop => self.go_to_top(),
            Action::GoToBottom => self.go_to_bottom(),
            Action::GoToLine(line) => self.go_to_line(line),
            Action::ScrollUpOneLine => self.scroll_up_one_line(),
            Action::ScrollDownOneLine => self.scroll_down_one_line(),
            Action::ScrollUpHalfScreen => self.scroll_up_half_screen(),
            Action::ScrollDownHalfScreen => self.scroll_down_half_screen(),
            Action::ScrollUpScreen => self.scroll_up_screen(),
            Action::ScrollDownScreen => self.scroll_down_screen(),
            Action::NoOp => {},
            Action::Quit => self.quit(),
        }
    }

    /// Feeds a key to the key machine and applies the action it completes.
    pub fn on_key_event(&mut self, key: Key)
        requires
            old(self).wf(),
        ensures
            final(self).wf(),
            final(self)@ == old(self)@.after_key(key),
            final(self).cli() == old(self).cli(),
    {
        let (key_state, action) = self.key_state.next(key);
        self.key_state = key_state;
        self.on_action(action);
    }

    /// Takes the new size, then holds the top line within the new range.
    pub fn on_term_resize(&mut self, new_size: Size)
        requires
            old(self).wf(),
        ensures
            final(self).wf(),
            final(self)@ == old(self)@.after_resize(new_size.width as nat, new_size.height as nat),
            final(self).cli() == old(self).cli(),
    {
        self.term_size = new_size;
        let t = self.current_line;
        self.set_top(t);
    }

    /// Reacts to a terminal event: key presses and resizes; the rest is ignored.
    pub fn handle_term_event(&mut self, event: TermEvent)
        requires
            old(self).wf(),
        ensures
            final(self).wf(),
            final(self)@ == old(self)@.after_term_event(event),
            final(self).cli() == old(self).cli(),
    {
        match event {
            TermEvent::Key { key, press } => {
                if press {
                    self.on_key_event(key);
                }
            },
            TermEvent::Resize(columns, rows) => self.on_term_resize(Size::new(columns, rows)),
            TermEvent::Other => {},
        }
    }

    /// Handles one event of the main loop. The reader's failure is handed
    /// back; the reader's termination is not for this method to see.
    pub fn handle_events(&mut self, event: Event) -> (r: Result<(), color_eyre::eyre::Report>)
        requires
            old(self).wf(),
            !(event is ReaderThreadErrReturned),
        ensures
            final(self).wf(),
            final(self).cli() == old(self).cli(),
            match event {
                Event::Term(ev) => r is Ok && final(self)@ == old(self)@.after_term_event(ev),
                Event::NewLines(batch) => r is Ok && final(self)@ == (AppView {
                    store: after_new_lines(old(self)@.store, strings_view(batch@)),
                    ..old(self)@
                }),
                Event::EOF => r is Ok && final(self)@ == (AppView {
                    store: StoreView { lines: old(self)@.store.lines, reached_eof: true },
                    ..old(self)@
                }),
                Event::ReaderFailed(e) => r == Err::<(), color_eyre::eyre::Report>(e)
                    && final(self)@ == old(self)@,
                Event::ReaderThreadErrReturned => false,
            },
    {
        match event {
            Event::Term(ev) => {
                self.handle_term_event(ev);
                Ok(())
            },
            Event::ReaderFailed(e) => Err(e),
            other => self.input.handle_event(other),
        }
    }

    /// The decoded lines that the viewport shows now.
    pub fn current_viewport_lines(&self) -> (r: Vec<Vec<StyledSpan>>)
        ensures
            r@.len() == crate::store::visible_count(
                self@.store.lines.len(),
                self@.top,
                self@.height,
            ),
            forall|k: int|
                0 <= k < r@.len() ==> crate::overstrike::spans_match(
                    (#[trigger] r@[k])@,
                    crate::store::styled_line(self@.store.lines[self@.top + k]),
                ),
    {
        self.input.lines(self.current_line, self.term_height())
    }
}

} // verus!
