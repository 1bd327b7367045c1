//! The render backend: turns the widget toolkit's draw calls into terminal
//! control sequences in an output buffer, hands that buffer out once per poll,
//! tracks the screen size, and maps terminal input to toolkit events.
use vstd::prelude::*;

use crate::escape::{
    bg_seq, clear_all, fg_seq, goto, hide_cursor, push_bytes, push_clear_all, push_color,
    push_goto, push_hide_cursor, push_sgr, push_show_cursor, push_title, sgr, show_cursor,
    title_seq,
};
use crate::event::{
    cell_at, key_event, map_event, Event, Key, MouseButton, MouseEvent, TermEvent,
    TermKey, TermMouseButton, TermMouseEvent, Vec2,
};
use vstd::string::{StrSliceExecFns, StringSliceAdditionalSpecFns};
use crate::theme::{term_color, with_color, BaseColor, Color, ColorPair, Effect, TermColor};

verus! {

/// What the backend sends toward the SSH side.
#[derive(Debug, Clone, PartialEq, Eq, Hash)]
pub enum CursiveOutput {
    /// A batch of terminal output.
    Data(Vec<u8>),
    /// The terminal is released; nothing follows.
    Close,
}

/// What a [`CursiveOutput`] denotes.
pub enum OutputModel {
    Data(Seq<u8>),
    Close,
}

impl View for CursiveOutput {
    type V = OutputModel;

    open spec fn view(&self) -> OutputModel {
        match self {
            CursiveOutput::Data(d) => OutputModel::Data(d@),
            CursiveOutput::Close => OutputModel::Close,
        }
    }
}

/// The state of a [`Backend`].
pub struct BackendModel {
    /// The colors last selected.
    pub style: ColorPair,
    /// The button of the last mouse press.
    pub last_button: Option<MouseButton>,
    /// The screen size last reported.
    pub size: Vec2,
    /// Output not yet handed out.
    pub pending: Seq<u8>,
}

/// The render backend of one session.
pub struct Backend {
    current_style: ColorPair,
    last_button: Option<MouseButton>,
    size: Vec2,
    data: Vec<u8>,
}

/// The sequence that turns an effect on; nothing for the plain effect.
pub open spec fn effect_on(e: Effect) -> Seq<u8> {
    match e {
        Effect::Simple => Seq::empty(),
        Effect::Reverse => sgr(7),
        Effect::Dim => sgr(2),
        Effect::Bold => sgr(1),
        Effect::Blink => sgr(5),
        Effect::Italic => sgr(3),
        Effect::Strikethrough => sgr(9),
        Effect::Underline => sgr(4),
    }
}

/// The sequence that turns an effect off; dim and bold share one.
pub open spec fn effect_off(e: Effect) -> Seq<u8> {
    match e {
        Effect::Simple => Seq::empty(),
        Effect::Reverse => sgr(27),
        Effect::Dim | Effect::Bold => sgr(22),
        Effect::Blink => sgr(25),
        Effect::Italic => sgr(23),
        Effect::Strikethrough => sgr(29),
        Effect::Underline => sgr(24),
    }
}

/// The sequences that select both colors of a pair.
pub open spec fn colors_seq(p: ColorPair) -> Seq<u8> {
    fg_seq(term_color(p.front)) + bg_seq(term_color(p.back))
}

/// `s` written `n` times.
pub open spec fn repeat(s: Seq<u8>, n: nat) -> Seq<u8>
    decreases n,
{
    if n == 0 {
        Seq::empty()
    } else {
        repeat(s, (n - 1) as nat) + s
    }
}

/// What a dropped backend writes last: cursor shown and homed, default
/// background and foreground, screen cleared.
pub open spec fn release_seq() -> Seq<u8> {
    show_cursor() + goto(1, 1) + bg_seq(TermColor::Reset) + fg_seq(TermColor::Reset) + clear_all()
}

/// The colors a new backend assumes.
pub open spec fn initial_style() -> ColorPair {
    ColorPair { front: Color::Dark(BaseColor::Black), back: Color::Dark(BaseColor::Black) }
}

/// The screen size after a poll that took `resize`, if any, from a backend
/// whose size was `size`.
pub open spec fn size_after_poll(size: Vec2, resize: Option<Vec2>) -> Vec2 {
    match resize {
        Some(s) => s,
        None => size,
    }
}

/// What one poll hands back.
pub struct PollOutcome {
    /// The batch of output to send, if any was pending.
    pub output: Option<CursiveOutput>,
    /// The screen size changed: a full redraw is due.
    pub relayout: bool,
    /// The input event read, if any.
    pub event: Option<Event>,
}

impl View for Backend {
    type V = BackendModel;

    closed spec fn view(&self) -> BackendModel {
        BackendModel {
            style: self.current_style,
            last_button: self.last_button,
            size: self.size,
            pending: self.data@,
        }
    }
}

impl Backend {
    /// A backend for a new session: size 1x1, cursor hidden.
    pub fn init_ssh() -> (r: Backend)
        ensures
            r@.style == initial_style(),
            r@.last_button.is_none(),
            r@.size == (Vec2 { x: 1, y: 1 }),
            r@.pending == hide_cursor(),
    {
        let mut data: Vec<u8> = Vec::new();
        push_hide_cursor(&mut data);
        assert(data@ =~= hide_cursor());
        let c = Backend {
            current_style: ColorPair {
                front: Color::Dark(BaseColor::Black),
                back: Color::Dark(BaseColor::Black),
            },
            last_button: None,
            size: Vec2 { x: 1, y: 1 },
            data,
        };
        c
    }

    fn apply_colors(&mut self, colors: ColorPair)
        requires
            colors.wf(),
        ensures
            final(self)@ == (BackendModel {
                pending: old(self)@.pending + colors_seq(colors),
                ..old(self)@
            }),
    {
        let f = with_color(colors.front);
        push_color(&mut self.data, 0x33, f);
        let b = with_color(colors.back);
        push_color(&mut self.data, 0x34, b);
        assert(self.data@ =~= old(self)@.pending + colors_seq(colors));
    }

    /// Sets the window title.
    pub fn set_title(&mut self, title: &str)
        ensures
            final(self)@ == (BackendModel {
                pending: old(self)@.pending + title_seq(title.spec_bytes()),
                ..old(self)@
            }),
    {
        let bytes = title.as_bytes_vec();
        push_title(&mut self.data, bytes.as_slice());
    }

    /// Selects `color` and returns the colors selected before; writes only
    /// when the colors change.
    pub fn set_color(&mut self, color: ColorPair) -> (r: ColorPair)
        requires
            color.wf(),
        ensures
            r == old(self)@.style,
            final(self)@ == if old(self)@.style == color {
                old(self)@
            } else {
                BackendModel {
                    style: color,
                    pending: old(self)@.pending + colors_seq(color),
                    ..old(self)@
                }
            },
    {
        let current_style = self.current_style;
        if current_style != color {
            self.apply_colors(color);
            self.current_style = color;
        }
        current_style
    }

    /// Turns an effect on.
    pub fn set_effect(&mut self, effect: Effect)
        ensures
            final(self)@ == (BackendModel {
                pending: old(self)@.pending + effect_on(effect),
                ..old(self)@
            }),
    {
        match effect {
            Effect::Simple => {},
            Effect::Reverse => push_sgr(&mut self.data, 7),
            Effect::Dim => push_sgr(&mut self.data, 2),
            Effect::Bold => push_sgr(&mut self.data, 1),
            Effect::Blink => push_sgr(&mut self.data, 5),
            Effect::Italic => push_sgr(&mut self.data, 3),
            Effect::Strikethrough => push_sgr(&mut self.data, 9),
            Effect::Underline => push_sgr(&mut self.data, 4),
        }
        assert(self.data@ =~= old(self)@.pending + effect_on(effect));
    }

    /// Turns an effect off.
    pub fn unset_effect(&mut self, effect: Effect)
        ensures
            final(self)@ == (BackendModel {
                pending: old(self)@.pending + effect_off(effect),
                ..old(self)@
            }),
    {
        match effect {
            Effect::Simple => {},
            Effect::Reverse => push_sgr(&mut self.data, 27),
            Effect::Dim | Effect::Bold => push_sgr(&mut self.data, 22),
            Effect::Blink => push_sgr(&mut self.data, 25),
            Effect::Italic => push_sgr(&mut self.data, 23),
            Effect::Strikethrough => push_sgr(&mut self.data, 29),
            Effect::Underline => push_sgr(&mut self.data, 24),
        }
        assert(self.data@ =~= old(self)@.pending + effect_off(effect));
    }

    pub fn has_colors(&self) -> (r: bool)
        ensures
            r,
    {
        true
    }

    /// The screen size last reported.
    pub fn screen_size(&self) -> (r: Vec2)
        ensures
            r == self@.size,
    {
        self.size
    }

    /// Clears the screen to `color`. The selected colors are left as they
    /// were recorded, as the toolkit sets them again before drawing.
    pub fn clear(&mut self, color: Color)
        requires
            color.wf(),
        ensures
            final(self)@ == (BackendModel {
                pending: old(self)@.pending + colors_seq(ColorPair { front: color, back: color })
                    + clear_all(),
                ..old(self)@
            }),
    {
        self.apply_colors(ColorPair::uniform(color));
        push_clear_all(&mut self.data);
    }

    /// Writes `text` at the zero-based cell `pos`.
    pub fn print_at(&mut self, pos: Vec2, text: &str)
        ensures
            final(self)@ == (BackendModel {
                pending: old(self)@.pending + goto((pos.x + 1) as nat, (pos.y + 1) as nat) + text.spec_bytes(),
                ..old(self)@
            }),
    {
        push_goto(&mut self.data, pos.x as u128 + 1, pos.y as u128 + 1);
        let bytes = text.as_bytes_vec();
        push_bytes(&mut self.data, bytes.as_slice());
        assert(self.data@ =~= old(self)@.pending + goto((pos.x + 1) as nat, (pos.y + 1) as nat) + text.spec_bytes());
    }

    /// Writes `text` `repetitions` times from the zero-based cell `pos`;
    /// nothing when `repetitions` is zero.
    pub fn print_at_rep(&mut self, pos: Vec2, repetitions: usize, text: &str)
        ensures
            final(self)@ == (BackendModel {
                pending: if repetitions == 0 {
                    old(self)@.pending
                } else {
                    old(self)@.pending + goto((pos.x + 1) as nat, (pos.y + 1) as nat) + repeat(
                        text.spec_bytes(),
                        repetitions as nat,
                    )
                },
                ..old(self)@
            }),
    {
        if repetitions > 0 {
            push_goto(&mut self.data, pos.x as u128 + 1, pos.y as u128 + 1);
            let bytes = text.as_bytes_vec();
            let ghost start = self.data@;
            let mut done: usize = 0;
            while done < repetitions
                invariant
                    done <= repetitions,
                    bytes@ == text.spec_bytes(),
                    self.data@ == start + repeat(bytes@, done as nat),
                    self.current_style == old(self).current_style,
                    self.last_button == old(self).last_button,
                    self.size == old(self).size,
                decreases repetitions - done,
            {
                push_bytes(&mut self.data, bytes.as_slice());
                done = done + 1;
                assert(self.data@ =~= start + repeat(bytes@, done as nat));
            }
            assert(self.data@ =~= old(self)@.pending + goto((pos.x + 1) as nat, (pos.y + 1) as nat) + repeat(
                text.spec_bytes(),
                repetitions as nat,
            ));
        }
    }

    /// Hands out the pending output as one batch, if there is any.
    pub fn flush(&mut self) -> (r: Option<Vec<u8>>)
        ensures
            old(self)@.pending.len() == 0 ==> r.is_none(),
            old(self)@.pending.len() > 0 ==> r.is_some() && r.unwrap()@ == old(self)@.pending,
            final(self)@ == (BackendModel { pending: Seq::empty(), ..old(self)@ }),
    {
        if self.data.len() == 0 {
            assert(self.data@ =~= Seq::<u8>::empty());
            None
        } else {
            let mut out: Vec<u8> = Vec::new();
            out.append(&mut self.data);
            Some(out)
        }
    }

    /// Takes a reported screen size; returns whether it differs from the
    /// size before, that is whether a full redraw is due.
    pub fn apply_resize(&mut self, size: Vec2) -> (r: bool)
        ensures
            r == (size != old(self)@.size),
            final(self)@ == (BackendModel { size, ..old(self)@ }),
    {
        let changed = size != self.size;
        self.size = size;
        changed
    }

    /// Maps a terminal event to a toolkit event, remembering the button of a
    /// mouse press.
    pub fn map_key(&mut self, event: TermEvent) -> (r: Event)
        ensures
            (final(self)@.last_button, r@) == map_event(old(self)@.last_button, event),
            final(self)@.style == old(self)@.style,
            final(self)@.size == old(self)@.size,
            final(self)@.pending == old(self)@.pending,
    {
        match event {
            TermEvent::Unsupported(bytes) => Event::Unknown(bytes),
            TermEvent::Key(k) => Self::map_term_key(k),
            TermEvent::Mouse(TermMouseEvent::Press(btn, x, y)) => {
                let position = cell_at(x, y);
                let event = match btn {
                    TermMouseButton::Left => MouseEvent::Press(MouseButton::Left),
                    TermMouseButton::Middle => MouseEvent::Press(MouseButton::Middle),
                    TermMouseButton::Right => MouseEvent::Press(MouseButton::Right),
                    TermMouseButton::WheelUp => MouseEvent::WheelUp,
                    TermMouseButton::WheelDown => MouseEvent::WheelDown,
                };
                if let MouseEvent::Press(b) = event {
                    self.last_button = Some(b);
                }
                Event::Mouse { event, position }
            },
            TermEvent::Mouse(TermMouseEvent::Release(x, y)) => match self.last_button {
                Some(b) => Event::Mouse { event: MouseEvent::Release(b), position: cell_at(x, y) },
                None => Event::Unknown(Vec::new()),
            },
            TermEvent::Mouse(TermMouseEvent::Hold(x, y)) => match self.last_button {
                Some(b) => Event::Mouse { event: MouseEvent::Hold(b), position: cell_at(x, y) },
                None => Event::Unknown(Vec::new()),
            },
        }
    }

    fn map_term_key(k: TermKey) -> (r: Event)
        ensures
            r@ == key_event(k),
    {
        match k {
            TermKey::Esc => Event::Key(Key::Esc),
            TermKey::Backspace => Event::Key(Key::Backspace),
            TermKey::Left => Event::Key(Key::Left),
            TermKey::Right => Event::Key(Key::Right),
            TermKey::Up => Event::Key(Key::Up),
            TermKey::Down => Event::Key(Key::Down),
            TermKey::Home => Event::Key(Key::Home),
            TermKey::End => Event::Key(Key::End),
            TermKey::PageUp => Event::Key(Key::PageUp),
            TermKey::PageDown => Event::Key(Key::PageDown),
            TermKey::Delete => Event::Key(Key::Del),
            TermKey::Insert => Event::Key(Key::Ins),
            TermKey::F(i) => {
                if i < 12 {
                    Event::Key(Key::F(i))
                } else {
                    let raw = vec![i];
                    assert(raw@ =~= seq![i]);
                    Event::Unknown(raw)
                }
            },
            TermKey::Char(c) => {
                if c == '\n' {
                    Event::Key(Key::Enter)
                } else if c == '\t' {
                    Event::Key(Key::Tab)
                } else {
                    Event::Char(c)
                }
            },
            TermKey::Ctrl(c) => Event::CtrlChar(c),
            TermKey::Alt(c) => Event::AltChar(c),
            TermKey::BackTab | TermKey::Null => {
                let raw: Vec<u8> = Vec::new();
                assert(raw@ =~= Seq::<u8>::empty());
                Event::Unknown(raw)
            },
        }
    }

    /// One poll: hands out the pending output, takes at most one reported
    /// screen size, and maps at most one input event.
    pub fn poll_event(&mut self, resize: Option<Vec2>, input: Option<TermEvent>) -> (r: PollOutcome)
        ensures
            old(self)@.pending.len() == 0 ==> r.output.is_none(),
            old(self)@.pending.len() > 0 ==> r.output.is_some() && r.output.unwrap()@ == OutputModel::Data(old(self)@.pending),
            final(self)@.pending == Seq::<u8>::empty(),
            final(self)@.style == old(self)@.style,
            final(self)@.size == size_after_poll(old(self)@.size, resize),
            r.relayout == match resize {
                Some(s) => s != old(self)@.size,
                None => false,
            },
            match input {
                Some(ev) => r.event.is_some() && (final(self)@.last_button, r.event.unwrap()@)
                    == map_event(old(self)@.last_button, ev),
                None => r.event.is_none() && final(self)@.last_button == old(self)@.last_button,
            },
    {
        let output = match self.flush() {
            Some(d) => Some(CursiveOutput::Data(d)),
            None => None,
        };
        let relayout = match resize {
            Some(s) => self.apply_resize(s),
            None => false,
        };
        let event = match input {
            Some(ev) => Some(self.map_key(ev)),
            None => None,
        };
        PollOutcome { output, relayout, event }
    }

    /// Releases the terminal: writes the release sequence and hands out the
    /// last batch followed by [`CursiveOutput::Close`]. Taking the backend by
    /// value makes this happen exactly once.
    pub fn finish(self) -> (r: Vec<CursiveOutput>)
        ensures
            r@.len() == 2,
            r@[0]@ == OutputModel::Data(self@.pending + release_seq()),
            r@[1]@ == OutputModel::Close,
    {
        let mut data = self.data;
        push_show_cursor(&mut data);
        push_goto(&mut data, 1, 1);
        push_color(&mut data, 0x34, TermColor::Reset);
        push_color(&mut data, 0x33, TermColor::Reset);
        push_clear_all(&mut data);
        assert(data@ =~= self@.pending + release_seq());
        let mut out: Vec<CursiveOutput> = Vec::new();
        out.push(CursiveOutput::Data(data));
        out.push(CursiveOutput::Close);
        out
    }
}

} // verus!
