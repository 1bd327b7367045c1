use ssh_ui::backend::{Backend, CursiveOutput};
use ssh_ui::event::{
    Event, Key, MouseButton, MouseEvent, TermEvent, TermKey, TermMouseButton, TermMouseEvent, Vec2,
};
use ssh_ui::theme::{with_color, BaseColor, Color, ColorPair, Effect, TermColor};

fn drain(b: &mut Backend) -> Vec<u8> {
    b.flush().unwrap_or_default()
}

#[test]
fn new_backend_hides_cursor_and_is_one_by_one() {
    let mut b = Backend::init_ssh();
    assert_eq!(b.screen_size(), Vec2::new(1, 1));
    assert_eq!(drain(&mut b), b"\x1b[?25l".to_vec());
    assert_eq!(b.flush(), None);
}

#[test]
fn print_at_is_one_based_on_the_wire() {
    let mut b = Backend::init_ssh();
    drain(&mut b);
    b.print_at(Vec2::new(4, 2), "hi");
    assert_eq!(drain(&mut b), b"\x1b[3;5Hhi".to_vec());
    b.print_at(Vec2::new(0, 0), "");
    assert_eq!(drain(&mut b), b"\x1b[1;1H".to_vec());
}

#[test]
fn print_at_writes_utf8_text() {
    let mut b = Backend::init_ssh();
    drain(&mut b);
    b.print_at(Vec2::new(9, 119), "\u{e9}");
    assert_eq!(drain(&mut b), b"\x1b[120;10H\xc3\xa9".to_vec());
}

#[test]
fn print_at_rep_repeats_text() {
    let mut b = Backend::init_ssh();
    drain(&mut b);
    b.print_at_rep(Vec2::new(1, 1), 3, "ab");
    assert_eq!(drain(&mut b), b"\x1b[2;2Hababab".to_vec());
    b.print_at_rep(Vec2::new(1, 1), 0, "ab");
    assert_eq!(b.flush(), None);
}

#[test]
fn set_color_writes_only_on_change() {
    let mut b = Backend::init_ssh();
    drain(&mut b);
    let pair = ColorPair { front: Color::Light(BaseColor::Red), back: Color::Rgb(1, 2, 3) };
    let before = b.set_color(pair);
    assert_eq!(
        before,
        ColorPair { front: Color::Dark(BaseColor::Black), back: Color::Dark(BaseColor::Black) }
    );
    assert_eq!(drain(&mut b), b"\x1b[38;5;9m\x1b[48;2;1;2;3m".to_vec());
    assert_eq!(b.set_color(pair), pair);
    assert_eq!(b.flush(), None);
}

#[test]
fn with_color_maps_every_kind() {
    assert_eq!(with_color(Color::TerminalDefault), TermColor::Reset);
    assert_eq!(with_color(Color::Dark(BaseColor::Blue)), TermColor::Ansi(4));
    assert_eq!(with_color(Color::Light(BaseColor::White)), TermColor::Ansi(15));
    assert_eq!(with_color(Color::Rgb(255, 0, 7)), TermColor::Rgb(255, 0, 7));
    assert_eq!(with_color(Color::RgbLowRes(1, 2, 3)), TermColor::Ansi(67));
    assert_eq!(with_color(Color::RgbLowRes(5, 5, 5)), TermColor::Ansi(231));
}

#[test]
fn clear_selects_color_then_clears() {
    let mut b = Backend::init_ssh();
    drain(&mut b);
    b.clear(Color::TerminalDefault);
    assert_eq!(drain(&mut b), b"\x1b[39m\x1b[49m\x1b[2J".to_vec());
    b.clear(Color::RgbLowRes(0, 0, 1));
    assert_eq!(drain(&mut b), b"\x1b[38;5;17m\x1b[48;5;17m\x1b[2J".to_vec());
}

#[test]
fn effects_on_and_off() {
    let mut b = Backend::init_ssh();
    drain(&mut b);
    b.set_effect(Effect::Simple);
    assert_eq!(b.flush(), None);
    b.set_effect(Effect::Reverse);
    b.set_effect(Effect::Dim);
    b.set_effect(Effect::Bold);
    b.set_effect(Effect::Blink);
    b.set_effect(Effect::Italic);
    b.set_effect(Effect::Strikethrough);
    b.set_effect(Effect::Underline);
    assert_eq!(
        drain(&mut b),
        b"\x1b[7m\x1b[2m\x1b[1m\x1b[5m\x1b[3m\x1b[9m\x1b[4m".to_vec()
    );
    b.unset_effect(Effect::Reverse);
    b.unset_effect(Effect::Dim);
    b.unset_effect(Effect::Bold);
    b.unset_effect(Effect::Blink);
    b.unset_effect(Effect::Italic);
    b.unset_effect(Effect::Strikethrough);
    b.unset_effect(Effect::Underline);
    b.unset_effect(Effect::Simple);
    assert_eq!(
        drain(&mut b),
        b"\x1b[27m\x1b[22m\x1b[22m\x1b[25m\x1b[23m\x1b[29m\x1b[24m".to_vec()
    );
}

#[test]
fn set_title_uses_osc() {
    let mut b = Backend::init_ssh();
    drain(&mut b);
    b.set_title("app");
    assert_eq!(drain(&mut b), b"\x1b]0;app\x07".to_vec());
}

#[test]
fn has_colors_is_true() {
    assert!(Backend::init_ssh().has_colors());
}

#[test]
fn finish_ends_with_clean_screen_and_close() {
    let mut b = Backend::init_ssh();
    drain(&mut b);
    b.print_at(Vec2::new(0, 0), "x");
    let out = b.finish();
    assert_eq!(
        out,
        vec![
            CursiveOutput::Data(b"\x1b[1;1Hx\x1b[?25h\x1b[1;1H\x1b[49m\x1b[39m\x1b[2J".to_vec()),
            CursiveOutput::Close,
        ]
    );
}

#[test]
fn finish_without_pending_output_still_closes() {
    let mut b = Backend::init_ssh();
    drain(&mut b);
    let out = b.finish();
    assert_eq!(out.len(), 2);
    assert_eq!(out[1], CursiveOutput::Close);
    assert_eq!(
        out[0],
        CursiveOutput::Data(b"\x1b[?25h\x1b[1;1H\x1b[49m\x1b[39m\x1b[2J".to_vec())
    );
}

#[test]
fn poll_flushes_resizes_and_maps() {
    let mut b = Backend::init_ssh();
    let r = b.poll_event(Some(Vec2::new(80, 24)), Some(TermEvent::Key(TermKey::Char('q'))));
    assert_eq!(r.output, Some(CursiveOutput::Data(b"\x1b[?25l".to_vec())));
    assert!(r.relayout);
    assert_eq!(r.event, Some(Event::Char('q')));
    assert_eq!(b.screen_size(), Vec2::new(80, 24));
    let r = b.poll_event(Some(Vec2::new(80, 24)), None);
    assert_eq!(r.output, None);
    assert!(!r.relayout);
    assert_eq!(r.event, None);
}

#[test]
fn resize_then_poll_reports_new_size() {
    let mut b = Backend::init_ssh();
    b.poll_event(Some(Vec2::new(80, 24)), None);
    let r = b.poll_event(Some(Vec2::new(120, 40)), None);
    assert!(r.relayout);
    assert_eq!(b.screen_size(), Vec2::new(120, 40));
}

#[test]
fn keys_map_to_toolkit_keys() {
    let mut b = Backend::init_ssh();
    let cases = vec![
        (TermKey::Esc, Event::Key(Key::Esc)),
        (TermKey::Backspace, Event::Key(Key::Backspace)),
        (TermKey::Left, Event::Key(Key::Left)),
        (TermKey::Right, Event::Key(Key::Right)),
        (TermKey::Up, Event::Key(Key::Up)),
        (TermKey::Down, Event::Key(Key::Down)),
        (TermKey::Home, Event::Key(Key::Home)),
        (TermKey::End, Event::Key(Key::End)),
        (TermKey::PageUp, Event::Key(Key::PageUp)),
        (TermKey::PageDown, Event::Key(Key::PageDown)),
        (TermKey::Delete, Event::Key(Key::Del)),
        (TermKey::Insert, Event::Key(Key::Ins)),
        (TermKey::F(1), Event::Key(Key::F(1))),
        (TermKey::F(11), Event::Key(Key::F(11))),
        (TermKey::F(12), Event::Unknown(vec![12])),
        (TermKey::Char('\n'), Event::Key(Key::Enter)),
        (TermKey::Char('\t'), Event::Key(Key::Tab)),
        (TermKey::Char('a'), Event::Char('a')),
        (TermKey::Ctrl('c'), Event::CtrlChar('c')),
        (TermKey::Alt('x'), Event::AltChar('x')),
        (TermKey::Null, Event::Unknown(vec![])),
    ];
    for (k, e) in cases {
        assert_eq!(b.map_key(TermEvent::Key(k)), e);
    }
}

#[test]
fn unsupported_bytes_are_passed_verbatim() {
    let mut b = Backend::init_ssh();
    assert_eq!(
        b.map_key(TermEvent::Unsupported(vec![27, 91, 50, 126])),
        Event::Unknown(vec![27, 91, 50, 126])
    );
}

#[test]
fn release_without_press_is_discarded() {
    let mut b = Backend::init_ssh();
    assert_eq!(
        b.map_key(TermEvent::Mouse(TermMouseEvent::Release(3, 4))),
        Event::Unknown(vec![])
    );
    assert_eq!(
        b.map_key(TermEvent::Mouse(TermMouseEvent::Hold(3, 4))),
        Event::Unknown(vec![])
    );
}

#[test]
fn press_then_drag_and_release_use_the_button() {
    let mut b = Backend::init_ssh();
    assert_eq!(
        b.map_key(TermEvent::Mouse(TermMouseEvent::Press(TermMouseButton::Right, 3, 4))),
        Event::Mouse { event: MouseEvent::Press(MouseButton::Right), position: Vec2::new(2, 3) }
    );
    assert_eq!(
        b.map_key(TermEvent::Mouse(TermMouseEvent::Hold(5, 6))),
        Event::Mouse { event: MouseEvent::Hold(MouseButton::Right), position: Vec2::new(4, 5) }
    );
    assert_eq!(
        b.map_key(TermEvent::Mouse(TermMouseEvent::Press(TermMouseButton::WheelUp, 1, 1))),
        Event::Mouse { event: MouseEvent::WheelUp, position: Vec2::new(0, 0) }
    );
    assert_eq!(
        b.map_key(TermEvent::Mouse(TermMouseEvent::Release(7, 8))),
        Event::Mouse { event: MouseEvent::Release(MouseButton::Right), position: Vec2::new(6, 7) }
    );
    assert_eq!(
        b.map_key(TermEvent::Mouse(TermMouseEvent::Press(TermMouseButton::WheelDown, 2, 2))),
        Event::Mouse { event: MouseEvent::WheelDown, position: Vec2::new(1, 1) }
    );
}

#[test]
fn happy_path_draw_and_quit_key() {
    let mut b = Backend::init_ssh();
    let first = b.poll_event(Some(Vec2::new(80, 24)), None);
    assert!(first.relayout);
    b.print_at(Vec2::new(10, 5), "Hello");
    b.print_at(Vec2::new(12, 8), "<Quit>");
    let r = b.poll_event(None, Some(TermEvent::Key(TermKey::Char('q'))));
    match r.output {
        Some(CursiveOutput::Data(d)) => {
            assert_eq!(d, b"\x1b[6;11HHello\x1b[9;13H<Quit>".to_vec());
        }
        other => panic!("expected drawn output, got {:?}", other),
    }
    assert_eq!(r.event, Some(Event::Char('q')));
    let out = b.finish();
    match &out[0] {
        CursiveOutput::Data(d) => {
            assert!(d.ends_with(b"\x1b[?25h\x1b[1;1H\x1b[49m\x1b[39m\x1b[2J"));
        }
        other => panic!("expected data, got {:?}", other),
    }
    assert_eq!(out.last(), Some(&CursiveOutput::Close));
}
