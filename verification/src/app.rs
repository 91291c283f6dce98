//! State of the terminal view: the line being edited, the scrollback, the
//! command history, the scroll position and the interrupt tracker, with the
//! transitions that keyboard and mouse events cause and the layout of a
//! frame. Drawing and reading events are not part of this crate.

use crate::classifier::{style_of_text, Color, OutputClassifier, Style};
use crate::history::{History, HistoryModel};
use crate::interrupt::{fires, recorded, InterruptHandler, INTERRUPT_LIMIT};
use crate::monitor::{is_clear, is_exit, ControlMessage, ControlValue};
use crate::scroll::{ScrollModel, ScrollState};
use crate::text::{fold, push_char, same_text};
use vstd::prelude::*;
use vstd::string::*;

verus! {

/// How keys are read: as text to edit, or as commands to move the view.
#[derive(Clone, Copy, Debug, PartialEq, Eq, Structural)]
pub enum InputMode {
    Navigation,
    Insert,
}

/// The key of a keyboard event.
#[derive(Clone, Copy, Debug, PartialEq, Eq)]
pub enum KeyCode {
    Enter,
    Char(char),
    Backspace,
    Up,
    Down,
    Left,
    Right,
    PageUp,
    PageDown,
    Esc,
    Other,
}

/// A keyboard event.
#[derive(Clone, Copy, Debug, PartialEq, Eq)]
pub struct KeyPress {
    /// The key.
    pub code: KeyCode,
    /// Whether the control key, and no other modifier, was held.
    pub control: bool,
    /// Whether the key went down; releases and repeats are not presses.
    pub pressed: bool,
}

/// An event from keyboard or mouse.
#[derive(Clone, Copy, Debug, PartialEq, Eq)]
pub enum UiEvent {
    Key(KeyPress),
    WheelUp,
    WheelDown,
    Other,
}

/// Mathematical model of an [`App`].
#[verifier::ext_equal]
pub struct AppModel {
    /// The line being edited.
    pub input: Seq<char>,
    /// Position of the cursor in it, counted in characters.
    pub cursor: nat,
    /// Current mode.
    pub mode: InputMode,
    /// The scrollback: every line received or submitted so far.
    pub output: Seq<Seq<char>>,
    /// The command history.
    pub history: HistoryModel,
    /// The scroll position.
    pub scroll: ScrollModel,
    /// The times of the latest interrupts, newest first.
    pub interrupts: Seq<u128>,
}

/// What an event leads to: the next state, the messages to put on the input
/// channel, in order, and whether the view is to close.
#[verifier::ext_equal]
pub struct Transition {
    pub next: AppModel,
    pub messages: Seq<ControlValue>,
    pub quit: bool,
}

impl AppModel {
    /// The cursor lies within the line, and the parts are well-formed.
    pub open spec fn wf(self) -> bool {
        &&& self.cursor <= self.input.len()
        &&& self.history.wf()
        &&& self.scroll.wf()
        &&& self.interrupts.len() <= INTERRUPT_LIMIT
    }

    /// The state at start: an empty line in insert mode, nothing received.
    pub open spec fn initial() -> AppModel {
        AppModel {
            input: Seq::empty(),
            cursor: 0,
            mode: InputMode::Insert,
            output: Seq::empty(),
            history: HistoryModel::empty(),
            scroll: ScrollModel::initial(),
            interrupts: Seq::empty(),
        }
    }

    /// `c` is inserted at the cursor, which moves behind it.
    pub open spec fn put_char(self, c: char) -> AppModel {
        AppModel { input: self.input.insert(self.cursor as int, c), cursor: self.cursor + 1, ..self }
    }

    /// The characters from the one left of the cursor up to position `idx`
    /// leave the line, and the cursor moves one to the left. With `idx` at the
    /// cursor this removes the character left of the cursor.
    pub open spec fn remove_char(self, idx: nat) -> AppModel {
        let left = self.input.subrange(0, self.cursor - 1);
        let right = if idx <= self.input.len() {
            self.input.subrange(idx as int, self.input.len() as int)
        } else {
            Seq::empty()
        };
        AppModel { input: left + right, cursor: (self.cursor - 1) as nat, ..self }
    }

    /// The character left of the cursor is deleted; at the start of the line
    /// nothing happens.
    pub open spec fn delete_char(self) -> AppModel {
        if self.cursor != 0 {
            self.remove_char(self.cursor)
        } else {
            self
        }
    }

    /// The cursor moves one to the left, not past the start.
    pub open spec fn cursor_left(self) -> AppModel {
        AppModel {
            cursor: if self.cursor > 0 {
                (self.cursor - 1) as nat
            } else {
                0
            },
            ..self
        }
    }

    /// The cursor moves one to the right, not past the end.
    pub open spec fn cursor_right(self) -> AppModel {
        AppModel {
            cursor: if self.cursor < self.input.len() {
                self.cursor + 1
            } else {
                self.input.len()
            },
            ..self
        }
    }

    /// The cursor moves to the start of the line.
    pub open spec fn cursor_reset(self) -> AppModel {
        AppModel { cursor: 0, ..self }
    }

    /// The line becomes the one that `history` names, with the cursor at its
    /// end.
    pub open spec fn recall(self, history: HistoryModel) -> AppModel {
        AppModel { input: history.current(), cursor: history.current().len(), history, ..self }
    }

    /// The line is committed: it joins the history, whose cursor returns to
    /// the staging entry; the line is emptied and the cursor returns to its
    /// start. A line that asks for the display to be cleared empties the
    /// scrollback; any other line joins it.
    pub open spec fn submit(self) -> AppModel {
        AppModel {
            input: Seq::empty(),
            cursor: 0,
            output: if is_clear(self.input) {
                Seq::empty()
            } else {
                self.output.push(self.input)
            },
            history: self.history.submit(self.input),
            ..self
        }
    }

    /// `line` joins the scrollback.
    pub open spec fn receive(self, line: Seq<char>) -> AppModel {
        AppModel { output: self.output.push(line), ..self }
    }

    /// The view scrolls one line up.
    pub open spec fn scroll_up(self) -> AppModel {
        AppModel { scroll: self.scroll.up(), ..self }
    }

    /// The view scrolls one line down.
    pub open spec fn scroll_down(self) -> AppModel {
        AppModel { scroll: self.scroll.down(), ..self }
    }

    /// The mode changes to `mode`.
    pub open spec fn with_mode(self, mode: InputMode) -> AppModel {
        AppModel { mode, ..self }
    }

    /// A frame is laid out in a viewport of `viewport_height` lines.
    pub open spec fn frame(self, viewport_height: nat) -> AppModel {
        AppModel { scroll: self.scroll.frame(self.output.len(), viewport_height), ..self }
    }

    /// Nothing is emitted and the view stays open.
    pub open spec fn quiet(self) -> Transition {
        Transition { next: self, messages: Seq::empty(), quit: false }
    }

    /// The enter key in insert mode: the line is committed and emitted as it
    /// is; the view closes if the line asks for the end of the session.
    pub open spec fn on_enter(self) -> Transition {
        Transition {
            next: self.submit(),
            messages: seq![ControlValue::Raw(self.input)],
            quit: is_exit(self.input),
        }
    }

    /// The interrupt key in insert mode at time `now`: a stop request is
    /// emitted and the interrupt is recorded; under the hard-exit condition
    /// an exit request follows and the view closes.
    pub open spec fn on_interrupt(self, now: u128) -> Transition {
        let fired = fires(self.interrupts, now);
        Transition {
            next: AppModel { interrupts: recorded(self.interrupts, now), ..self },
            messages: if fired {
                seq![ControlValue::Stop, ControlValue::Exit]
            } else {
                seq![ControlValue::Stop]
            },
            quit: fired,
        }
    }

    /// Whether `key` is the interrupt key: the letter c with control held.
    pub open spec fn is_interrupt_key(key: KeyPress) -> bool {
        key.control && key.code == KeyCode::Char('c')
    }

    /// A key pressed in insert mode at time `now`.
    pub open spec fn on_insert_key(self, key: KeyPress, now: u128) -> Transition {
        match key.code {
            KeyCode::Enter => self.on_enter(),
            KeyCode::Char(c) => if Self::is_interrupt_key(key) {
                self.on_interrupt(now)
            } else {
                self.put_char(c).quiet()
            },
            KeyCode::Backspace => self.delete_char().quiet(),
            KeyCode::Up => self.recall(self.history.prev()).quiet(),
            KeyCode::Down => self.recall(self.history.next()).quiet(),
            KeyCode::Left => self.cursor_left().quiet(),
            KeyCode::Right => self.cursor_right().quiet(),
            KeyCode::PageUp => self.scroll_up().quiet(),
            KeyCode::PageDown => self.scroll_down().quiet(),
            KeyCode::Esc => self.with_mode(InputMode::Navigation).quiet(),
            KeyCode::Other => self.quiet(),
        }
    }

    /// A key pressed in navigation mode.
    pub open spec fn on_navigation_key(self, key: KeyPress) -> Transition {
        match key.code {
            KeyCode::Up => self.scroll_up().quiet(),
            KeyCode::PageUp => self.scroll_up().quiet(),
            KeyCode::Down => self.scroll_down().quiet(),
            KeyCode::PageDown => self.scroll_down().quiet(),
            KeyCode::Esc => self.with_mode(InputMode::Insert).quiet(),
            _ => self.quiet(),
        }
    }

    /// Whether the transition for `event` depends on the time: it does for
    /// the interrupt key pressed in insert mode, and for nothing else.
    pub open spec fn reads_clock(self, event: UiEvent) -> bool {
        match event {
            UiEvent::Key(key) => key.pressed && self.mode == InputMode::Insert
                && Self::is_interrupt_key(key),
            _ => false,
        }
    }

    /// The transition that `event` causes at time `now`. Only key presses
    /// count among keyboard events; the wheel scrolls in either mode.
    pub open spec fn step(self, event: UiEvent, now: u128) -> Transition {
        match event {
            UiEvent::Key(key) => if !key.pressed {
                self.quiet()
            } else if self.mode == InputMode::Insert {
                self.on_insert_key(key, now)
            } else {
                self.on_navigation_key(key)
            },
            UiEvent::WheelUp => self.scroll_up().quiet(),
            UiEvent::WheelDown => self.scroll_down().quiet(),
            UiEvent::Other => self.quiet(),
        }
    }
}

impl AppModel {
    /// One tick of the render loop at time `now`: at most one line that has
    /// come from the device joins the scrollback, then at most one event is
    /// handled.
    pub open spec fn tick(
        self,
        pending: Option<Seq<char>>,
        event: Option<UiEvent>,
        now: u128,
    ) -> Transition {
        let received = match pending {
            Some(line) => self.receive(line),
            None => self,
        };
        match event {
            Some(event) => received.step(event, now),
            None => received.quiet(),
        }
    }

    /// Whether a tick with `event` depends on the time.
    pub open spec fn tick_reads_clock(self, event: Option<UiEvent>) -> bool {
        match event {
            Some(event) => self.reads_clock(event),
            None => false,
        }
    }
}

/// Every transition leads from a well-formed state to a well-formed state:
/// the cursor stays within the line, the history cursor within the history,
/// the scroll position between top and bottom, and the tracker within its
/// limit.
pub proof fn lemma_step_preserves_wf(state: AppModel, event: UiEvent, now: u128)
    requires
        state.wf(),
    ensures
        state.step(event, now).next.wf(),
{
}

/// In navigation mode no event touches the line, the cursor, the scrollback
/// or the history, and none emits a message or closes the view.
pub proof fn lemma_navigation_leaves_text_alone(state: AppModel, event: UiEvent, now: u128)
    requires
        state.mode == InputMode::Navigation,
    ensures
        state.step(event, now).next.input == state.input,
        state.step(event, now).next.cursor == state.cursor,
        state.step(event, now).next.output == state.output,
        state.step(event, now).next.history == state.history,
        state.step(event, now).next.interrupts == state.interrupts,
        state.step(event, now).messages == Seq::<ControlValue>::empty(),
        !state.step(event, now).quit,
{
}

/// The view closes only on a submitted line that asks for the end of the
/// session, or on an interrupt that is the hard-exit condition. And no event
/// takes a line out of the scrollback, but for a submitted line that asks for
/// the display to be cleared, which empties it.
pub proof fn lemma_quit_and_scrollback(state: AppModel, event: UiEvent, now: u128)
    ensures
        state.step(event, now).quit ==> is_exit(state.input) || fires(state.interrupts, now),
        !is_clear(state.input) ==> state.output.is_prefix_of(state.step(event, now).next.output),
        state.step(event, now).next.output == state.output || state.step(event, now).next.output
            == state.output.push(state.input) || state.step(event, now).next.output
            == Seq::<Seq<char>>::empty(),
{
}

/// What the caller is to do after an event.
#[derive(Clone, Debug, PartialEq, Eq)]
pub struct Outcome {
    /// Messages to put on the input channel, in this order.
    pub messages: Vec<ControlMessage>,
    /// Whether the view is to close.
    pub quit: bool,
}

impl Outcome {
    /// The messages as values.
    pub open spec fn emitted(&self) -> Seq<ControlValue> {
        Seq::new(self.messages@.len(), |i: int| self.messages@[i]@)
    }

    /// Whether this outcome and the state `next` are what `transition` says.
    pub open spec fn realizes(&self, next: AppModel, transition: Transition) -> bool {
        &&& next == transition.next
        &&& self.emitted() == transition.messages
        &&& self.quit == transition.quit
    }
}

/// The text of a line that may be there.
pub open spec fn option_text(line: Option<String>) -> Option<Seq<char>> {
    match line {
        Some(text) => Some(text@),
        None => None,
    }
}

/// Length of a tick of the render loop, in milliseconds.
pub const TICK_MILLIS: u64 = 15;

/// What a frame shows beside the texts themselves.
#[derive(Clone, Debug, PartialEq, Eq)]
pub struct Frame {
    /// The style of each line of the scrollback.
    pub styles: Vec<Style>,
    /// First line of the scrollback that is shown.
    pub offset: usize,
    /// Position of the cursor in the input line, in characters.
    pub cursor: usize,
    /// Colour of the border around the messages.
    pub messages_border: Color,
    /// Colour of the border around the input line.
    pub input_border: Color,
}

/// The colour of the border around the messages in mode `mode`: yellow in
/// insert mode, white in navigation mode.
pub open spec fn messages_border_of(mode: InputMode) -> Color {
    match mode {
        InputMode::Insert => Color::Yellow,
        InputMode::Navigation => Color::White,
    }
}

/// The colour of the border around the input line in mode `mode`: white in
/// insert mode, yellow in navigation mode.
pub open spec fn input_border_of(mode: InputMode) -> Color {
    match mode {
        InputMode::Insert => Color::White,
        InputMode::Navigation => Color::Yellow,
    }
}

/// The cell in which the cursor is drawn for an input box whose corner is at
/// column `x`, row `y`: one row down, and one column right of the character
/// position, each held to the last column or row that there is.
pub open spec fn cursor_cell_of(x: u16, y: u16, cursor: nat) -> (u16, u16) {
    (
        if x + cursor + 1 <= u16::MAX {
            (x + cursor + 1) as u16
        } else {
            u16::MAX
        },
        if y + 1 <= u16::MAX {
            (y + 1) as u16
        } else {
            u16::MAX
        },
    )
}

/// Computes [`cursor_cell_of`].
pub fn cursor_cell(x: u16, y: u16, cursor: usize) -> (cell: (u16, u16))
    ensures
        cell == cursor_cell_of(x, y, cursor as nat),
{
    let room: u16 = u16::MAX - x;
    let column: u16 = if cursor < room as usize {
        x + cursor as u16 + 1
    } else {
        u16::MAX
    };
    (column, y.saturating_add(1))
}

/// The terminal view's state.
pub struct App {
    /// Current value of the input box.
    input: String,
    /// Everything shown in the message box.
    output: Vec<String>,
    /// Commands entered so far.
    cmd_history: History,
    /// Scroll position and who holds it.
    scroll: ScrollState,
    /// Cursor position in the input box, in characters.
    cursor_pos: usize,
    /// Current mode.
    input_mode: InputMode,
    /// Latest interrupts.
    interrupts: InterruptHandler,
}

impl View for App {
    type V = AppModel;

    closed spec fn view(&self) -> AppModel {
        AppModel {
            input: self.input@,
            cursor: self.cursor_pos as nat,
            mode: self.input_mode,
            output: self.output.deep_view(),
            history: self.cmd_history@,
            scroll: self.scroll@,
            interrupts: self.interrupts@,
        }
    }
}

impl App {
    /// The cursor lies within the line, and the parts are well-formed.
    pub closed spec fn wf(&self) -> bool {
        &&& self.cursor_pos <= self.input@.len()
        &&& self.cmd_history.wf()
        &&& self.scroll.wf()
        &&& self.interrupts.wf()
    }

    /// A well-formed state has a well-formed model.
    pub proof fn lemma_wf_model(&self)
        requires
            self.wf(),
        ensures
            self@.wf(),
    {
        self.cmd_history.lemma_wf_model();
    }

    /// The state at start.
    pub fn new() -> (app: Self)
        ensures
            app.wf(),
            app@ == AppModel::initial(),
    {
        App {
            input: String::new(),
            output: Vec::new(),
            cmd_history: History::new(),
            scroll: ScrollState::new(),
            cursor_pos: 0,
            input_mode: InputMode::Insert,
            interrupts: InterruptHandler::new(INTERRUPT_LIMIT),
        }
    }

    /// The line being edited.
    pub fn input(&self) -> (text: &str)
        ensures
            text@ == self@.input,
    {
        self.input.as_str()
    }

    /// The scrollback.
    pub fn output(&self) -> (lines: &Vec<String>)
        ensures
            lines.deep_view() == self@.output,
    {
        &self.output
    }

    /// Position of the cursor in the line, in characters.
    pub fn cursor(&self) -> (cursor: usize)
        ensures
            cursor == self@.cursor,
    {
        self.cursor_pos
    }

    /// Current mode.
    pub fn mode(&self) -> (mode: InputMode)
        ensures
            mode == self@.mode,
    {
        self.input_mode
    }

    /// The scroll position.
    pub fn scroll(&self) -> (scroll: &ScrollState)
        ensures
            scroll@ == self@.scroll,
            self.wf() ==> scroll.wf(),
    {
        &self.scroll
    }

    /// The command history.
    pub fn history(&self) -> (history: &History)
        ensures
            history@ == self@.history,
            self.wf() ==> history.wf(),
    {
        &self.cmd_history
    }

    /// Appends a line to the scrollback.
    pub fn receive(&mut self, line: String)
        requires
            old(self).wf(),
        ensures
            final(self).wf(),
            final(self)@ == old(self)@.receive(line@),
    {
        self.output.push(line);
    }

    /// Moves the cursor one character to the left, not past the start.
    pub fn cursor_left(&mut self)
        requires
            old(self).wf(),
        ensures
            final(self).wf(),
            final(self)@ == old(self)@.cursor_left(),
    {
        self.cursor_pos = self.cursor_pos.saturating_sub(1);
    }

    /// Moves the cursor one character to the right, not past the end.
    pub fn cursor_right(&mut self)
        requires
            old(self).wf(),
        ensures
            final(self).wf(),
            final(self)@ == old(self)@.cursor_right(),
    {
        let len: usize = self.input.as_str().unicode_len();
        if self.cursor_pos < len {
            self.cursor_pos += 1;
        } else {
            self.cursor_pos = len;
        }
    }

    /// Moves the cursor to the start of the line.
    pub fn cursor_reset(&mut self)
        requires
            old(self).wf(),
        ensures
            final(self).wf(),
            final(self)@ == old(self)@.cursor_reset(),
    {
        self.cursor_pos = 0;
    }

    /// Inserts `c` at the cursor and moves the cursor behind it.
    pub fn put_char(&mut self, c: char)
        requires
            old(self).wf(),
        ensures
            final(self).wf(),
            final(self)@ == old(self)@.put_char(c),
    {
        let len: usize = self.input.as_str().unicode_len();
        let mut line = String::from_str(self.input.as_str().substring_char(0, self.cursor_pos));
        push_char(&mut line, c);
        line.append(self.input.as_str().substring_char(self.cursor_pos, len));
        self.input = line;
        self.cursor_right();
    }

    /// Removes the characters from the one left of the cursor up to position
    /// `idx` and moves the cursor one to the left.
    pub fn remove_char(&mut self, idx: usize)
        requires
            old(self).wf(),
            old(self)@.cursor > 0,
        ensures
            final(self).wf(),
            final(self)@ == old(self)@.remove_char(idx as nat),
    {
        let len: usize = self.input.as_str().unicode_len();
        let left_idx: usize = self.cursor_pos - 1;
        let mut line = String::from_str(self.input.as_str().substring_char(0, left_idx));
        if idx <= len {
            line.append(self.input.as_str().substring_char(idx, len));
        }
        self.cursor_left();
        self.input = line;
    }

    /// Deletes the character left of the cursor; at the start of the line
    /// nothing happens.
    pub fn delete_char(&mut self)
        requires
            old(self).wf(),
        ensures
            final(self).wf(),
            final(self)@ == old(self)@.delete_char(),
    {
        if self.cursor_pos != 0 {
            self.remove_char(self.cursor_pos)
        }
    }

    /// Scrolls the view one line up.
    pub fn scroll_up(&mut self)
        requires
            old(self).wf(),
        ensures
            final(self).wf(),
            final(self)@ == old(self)@.scroll_up(),
    {
        self.scroll.scroll_up();
    }

    /// Scrolls the view one line down.
    pub fn scroll_down(&mut self)
        requires
            old(self).wf(),
        ensures
            final(self).wf(),
            final(self)@ == old(self)@.scroll_down(),
    {
        self.scroll.scroll_down();
    }

    /// Commits the line: it joins the history, the line is emptied and the
    /// cursor returns to its start. A line that asks for the display to be
    /// cleared empties the scrollback; any other line joins it. Returns the
    /// committed text.
    pub fn submit(&mut self) -> (text: String)
        requires
            old(self).wf(),
        ensures
            final(self).wf(),
            final(self)@ == old(self)@.submit(),
            text@ == old(self)@.input,
    {
        let text = self.input.clone();
        self.cursor_reset();
        self.input = String::new();
        let form = fold(text.as_str());
        if same_text(form.as_str(), "CLEAR") {
            self.output.clear();
        } else {
            self.output.push(text.clone());
        }
        self.cmd_history.add(text.clone());
        self.cmd_history.reset();
        assert(self@.output =~= old(self)@.submit().output);
        text
    }

    /// Recalls the line that the history names after a step of its cursor:
    /// towards the oldest line if `older`, towards the staging entry if not.
    fn recall(&mut self, older: bool)
        requires
            old(self).wf(),
        ensures
            final(self).wf(),
            final(self)@ == old(self)@.recall(
                if older {
                    old(self)@.history.prev()
                } else {
                    old(self)@.history.next()
                },
            ),
    {
        let line = if older {
            self.cmd_history.prev_cmd()
        } else {
            self.cmd_history.next_cmd()
        };
        self.cursor_pos = line.as_str().unicode_len();
        self.input = line;
    }

    /// Handles the enter key in insert mode.
    fn on_enter(&mut self) -> (outcome: Outcome)
        requires
            old(self).wf(),
        ensures
            final(self).wf(),
            outcome.realizes(final(self)@, old(self)@.on_enter()),
    {
        let text = self.submit();
        let form = fold(text.as_str());
        let quit = same_text(form.as_str(), "EXIT");
        let mut messages: Vec<ControlMessage> = Vec::new();
        messages.push(ControlMessage::Raw(text));
        let outcome = Outcome { messages, quit };
        assert(outcome.emitted() =~= old(self)@.on_enter().messages);
        outcome
    }

    /// Handles the interrupt key in insert mode at time `now`.
    fn on_interrupt(&mut self, now: u128) -> (outcome: Outcome)
        requires
            old(self).wf(),
        ensures
            final(self).wf(),
            outcome.realizes(final(self)@, old(self)@.on_interrupt(now)),
    {
        let mut messages: Vec<ControlMessage> = Vec::new();
        messages.push(ControlMessage::Stop);
        let fired = self.interrupts.interrupted_at(now);
        if fired {
            messages.push(ControlMessage::Exit);
        }
        let outcome = Outcome { messages, quit: fired };
        assert(outcome.emitted() =~= old(self)@.on_interrupt(now).messages);
        outcome
    }

    /// Handles a key pressed in insert mode at time `now`.
    fn on_insert_key(&mut self, key: KeyPress, now: u128) -> (outcome: Outcome)
        requires
            old(self).wf(),
        ensures
            final(self).wf(),
            outcome.realizes(final(self)@, old(self)@.on_insert_key(key, now)),
    {
        match key.code {
            KeyCode::Enter => {
                return self.on_enter();
            },
            KeyCode::Char(c) => {
                if c == 'c' && key.control {
                    return self.on_interrupt(now);
                }
                self.put_char(c);
            },
            KeyCode::Backspace => self.delete_char(),
            KeyCode::Up => self.recall(true),
            KeyCode::Down => self.recall(false),
            KeyCode::Left => self.cursor_left(),
            KeyCode::Right => self.cursor_right(),
            KeyCode::PageUp => self.scroll_up(),
            KeyCode::PageDown => self.scroll_down(),
            KeyCode::Esc => self.input_mode = InputMode::Navigation,
            KeyCode::Other => (),
        }
        let outcome = Outcome { messages: Vec::new(), quit: false };
        assert(outcome.emitted() =~= Seq::<ControlValue>::empty());
        outcome
    }

    /// Handles a key pressed in navigation mode.
    fn on_navigation_key(&mut self, key: KeyPress) -> (outcome: Outcome)
        requires
            old(self).wf(),
        ensures
            final(self).wf(),
            outcome.realizes(final(self)@, old(self)@.on_navigation_key(key)),
    {
        match key.code {
            KeyCode::Up | KeyCode::PageUp => self.scroll_up(),
            KeyCode::Down | KeyCode::PageDown => self.scroll_down(),
            KeyCode::Esc => self.input_mode = InputMode::Insert,
            _ => (),
        }
        let outcome = Outcome { messages: Vec::new(), quit: false };
        assert(outcome.emitted() =~= Seq::<ControlValue>::empty());
        outcome
    }

    /// Handles an event from keyboard or mouse that arrives at time `now` on
    /// the tracker's clock: changes the state as the event asks and tells
    /// which messages to emit and whether to close the view.
    pub fn on_event_at(&mut self, event: UiEvent, now: u128) -> (outcome: Outcome)
        requires
            old(self).wf(),
        ensures
            final(self).wf(),
            outcome.realizes(final(self)@, old(self)@.step(event, now)),
    {
        match event {
            UiEvent::Key(key) => {
                if key.pressed {
                    return match self.input_mode {
                        InputMode::Insert => self.on_insert_key(key, now),
                        InputMode::Navigation => self.on_navigation_key(key),
                    };
                }
            },
            UiEvent::WheelUp => self.scroll_up(),
            UiEvent::WheelDown => self.scroll_down(),
            UiEvent::Other => (),
        }
        let outcome = Outcome { messages: Vec::new(), quit: false };
        assert(outcome.emitted() =~= Seq::<ControlValue>::empty());
        outcome
    }

    /// Handles an event from keyboard or mouse at the present time. The time
    /// is read from the tracker's clock, and only the interrupt key in insert
    /// mode depends on it: for that key the contract holds for some reading,
    /// every other event has the one outcome stated.
    pub fn on_event(&mut self, event: UiEvent) -> (outcome: Outcome)
        requires
            old(self).wf(),
        ensures
            final(self).wf(),
            exists|now: u128| outcome.realizes(final(self)@, #[trigger] old(self)@.step(event, now)),
            !old(self)@.reads_clock(event) ==> outcome.realizes(
                final(self)@,
                old(self)@.step(event, 0),
            ),
    {
        let now: u128 = self.interrupts.now();
        self.on_event_at(event, now)
    }

    /// Runs one tick of the render loop: takes in the line that has come
    /// from the device, if there is one, and handles the event, if there is
    /// one. No tick takes in more than one line or one event. As for
    /// [`App::on_event`], the time is read from the tracker's clock.
    pub fn tick(&mut self, pending: Option<String>, event: Option<UiEvent>) -> (outcome: Outcome)
        requires
            old(self).wf(),
        ensures
            final(self).wf(),
            exists|now: u128|
                outcome.realizes(
                    final(self)@,
                    #[trigger] old(self)@.tick(option_text(pending), event, now),
                ),
            !old(self)@.tick_reads_clock(event) ==> outcome.realizes(
                final(self)@,
                old(self)@.tick(option_text(pending), event, 0),
            ),
    {
        let now: u128 = self.interrupts.now();
        self.tick_at(pending, event, now)
    }

    /// Runs one tick of the render loop at time `now` on the tracker's clock.
    pub fn tick_at(
        &mut self,
        pending: Option<String>,
        event: Option<UiEvent>,
        now: u128,
    ) -> (outcome: Outcome)
        requires
            old(self).wf(),
        ensures
            final(self).wf(),
            outcome.realizes(final(self)@, old(self)@.tick(option_text(pending), event, now)),
    {
        if let Some(line) = pending {
            self.receive(line);
        }
        match event {
            Some(event) => self.on_event_at(event, now),
            None => {
                let outcome = Outcome { messages: Vec::new(), quit: false };
                assert(outcome.emitted() =~= Seq::<ControlValue>::empty());
                outcome
            },
        }
    }

    /// Lays out a frame for a message box of `viewport_height` lines: the
    /// scroll position follows the scrollback or stays with the user, and
    /// every line of the scrollback gets its style.
    pub fn frame(&mut self, viewport_height: usize, classifier: &OutputClassifier) -> (frame: Frame)
        requires
            old(self).wf(),
            classifier.wf(),
        ensures
            final(self).wf(),
            final(self)@ == old(self)@.frame(viewport_height as nat),
            frame.styles@.len() == old(self)@.output.len(),
            forall|i: int|
                0 <= i < frame.styles@.len() ==> frame.styles@[i] == style_of_text(
                    #[trigger] old(self)@.output[i],
                ),
            final(self)@.scroll.manual <==> old(self)@.scroll.manual && old(self)@.scroll.offset
                < crate::scroll::bottom_of(old(self)@.output.len(), viewport_height as nat),
            frame.offset == final(self)@.scroll.offset,
            frame.cursor == old(self)@.cursor,
            frame.messages_border == messages_border_of(old(self)@.mode),
            frame.input_border == input_border_of(old(self)@.mode),
    {
        let count: usize = self.output.len();
        let mut styles: Vec<Style> = Vec::new();
        let mut at: usize = 0;
        while at < count
            invariant
                at <= count,
                count == self.output@.len(),
                classifier.wf(),
                styles@.len() == at,
                forall|i: int|
                    0 <= i < at ==> styles@[i] == style_of_text(#[trigger] self.output@[i]@),
            decreases count - at,
        {
            let style = classifier.classify(self.output[at].as_str());
            styles.push(style);
            at += 1;
        }
        self.scroll.frame(count, viewport_height);
        let (messages_border, input_border) = match self.input_mode {
            InputMode::Insert => (Color::Yellow, Color::White),
            InputMode::Navigation => (Color::White, Color::Yellow),
        };
        Frame {
            styles,
            offset: self.scroll.offset(),
            cursor: self.cursor_pos,
            messages_border,
            input_border,
        }
    }
}

} // verus!
