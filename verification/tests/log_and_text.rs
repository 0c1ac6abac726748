use flashlib::display::light_states;
use flashlib::DisplayColor;
use flashlib::text::{bool_text, decimal_text, signed_decimal_text};
use flashlib::{
    should_quit, Key, KeyInput, LightId, LogBuffer, LogLevel, Lights, MessageVisitor, OnOff,
    TuiLights,
};

#[test]
fn decimal_text_writes_digits() {
    assert_eq!(decimal_text(0), "0");
    assert_eq!(decimal_text(7), "7");
    assert_eq!(decimal_text(120), "120");
    assert_eq!(decimal_text(u64::MAX), u64::MAX.to_string());
}

#[test]
fn signed_decimal_text_writes_sign() {
    assert_eq!(signed_decimal_text(-7), "-7");
    assert_eq!(signed_decimal_text(42), "42");
    assert_eq!(signed_decimal_text(0), "0");
    assert_eq!(signed_decimal_text(i64::MIN), i64::MIN.to_string());
    assert_eq!(signed_decimal_text(i64::MAX), i64::MAX.to_string());
}

#[test]
fn bool_text_writes_words() {
    assert_eq!(bool_text(true), "true");
    assert_eq!(bool_text(false), "false");
}

#[test]
fn visitor_keeps_message_apart_from_fields() {
    let mut v = MessageVisitor::new();
    v.record_str("message", "Light toggled");
    v.record_u64("count", 3);
    v.record_i64("delta", -2);
    v.record_bool("on", true);
    v.record_str("who", "one");
    v.record_debug("state", "On".to_string());
    assert_eq!(
        v.final_message("event"),
        "Light toggled count=3 delta=-2 on=true who=one state=On"
    );
}

#[test]
fn visitor_uses_event_name_without_message() {
    let v = MessageVisitor::new();
    assert_eq!(v.final_message("flash_tui::main"), "flash_tui::main");
    let mut v = MessageVisitor::new();
    v.record_i64("x", 5);
    assert_eq!(v.final_message("ev"), "ev x=5");
}

#[test]
fn visitor_ignores_non_text_message_fields() {
    let mut v = MessageVisitor::new();
    v.record_u64("message", 9);
    v.record_i64("message", -9);
    v.record_bool("message", false);
    assert_eq!(v.final_message("ev"), "ev");
    v.record_debug("message", "\"dbg\"".to_string());
    assert_eq!(v.final_message("ev"), "\"dbg\"");
}

#[test]
fn log_buffer_keeps_entries_in_order() {
    let mut b = LogBuffer::new();
    assert_eq!(b.len(), 0);
    b.add_entry(LogLevel::Info, "first".to_string());
    b.add_entry(LogLevel::Warn, "second".to_string());
    let entries = b.get_entries();
    assert_eq!(entries.len(), 2);
    assert_eq!(entries[0].level, LogLevel::Info);
    assert_eq!(entries[0].message, "first");
    assert_eq!(entries[1].level, LogLevel::Warn);
    assert_eq!(entries[1].message, "second");
    assert_eq!(b.len(), 2);
}

#[test]
fn log_buffer_recent_entries_newest_first() {
    let mut b = LogBuffer::new();
    for (i, level) in [LogLevel::Error, LogLevel::Debug, LogLevel::Trace].iter().enumerate() {
        b.add_entry(*level, format!("m{}", i));
    }
    let r = b.recent_entries(2);
    assert_eq!(r.len(), 2);
    assert_eq!(r[0].message, "m2");
    assert_eq!(r[0].level, LogLevel::Trace);
    assert_eq!(r[1].message, "m1");
    let all = b.recent_entries(10);
    assert_eq!(all.len(), 3);
    assert_eq!(all[2].message, "m0");
    assert_eq!(b.recent_entries(0).len(), 0);
}

#[test]
fn log_window_leaves_room_for_the_border() {
    let mut b = LogBuffer::new();
    for i in 0..10 {
        b.add_entry(LogLevel::Info, format!("m{}", i));
    }
    let w = b.window_entries(5);
    assert_eq!(w.len(), 3);
    assert_eq!(w[0].message, "m9");
    assert_eq!(b.window_entries(2).len(), 0);
}

#[test]
fn level_labels_are_five_wide() {
    assert_eq!(LogLevel::Error.label(), "ERROR");
    assert_eq!(LogLevel::Warn.label(), "WARN ");
    assert_eq!(LogLevel::Info.label(), "INFO ");
    assert_eq!(LogLevel::Debug.label(), "DEBUG");
    assert_eq!(LogLevel::Trace.label(), "TRACE");
}

#[test]
fn light_captions_and_names() {
    assert_eq!(OnOff::On.label(), "  ON  ");
    assert_eq!(OnOff::Off.label(), " OFF  ");
    assert_eq!(LightId::One.name(), "Light 1");
    assert_eq!(LightId::Five.name(), "Light 5");
}

#[test]
fn light_states_reads_every_light() {
    let mut lights = TuiLights::new();
    lights.set_state(LightId::Two, OnOff::On);
    lights.set_state(LightId::Five, OnOff::On);
    assert_eq!(
        light_states(&lights),
        [OnOff::Off, OnOff::On, OnOff::Off, OnOff::Off, OnOff::On]
    );
}

#[test]
fn quit_keys() {
    let press = |key: Key, control: bool| KeyInput { key, pressed: true, control };
    assert!(should_quit(&press(Key::Char('q'), false)));
    assert!(should_quit(&press(Key::Esc, false)));
    assert!(should_quit(&press(Key::Char('c'), true)));
    assert!(!should_quit(&press(Key::Char('c'), false)));
    assert!(!should_quit(&press(Key::Char('x'), true)));
    assert!(!should_quit(&press(Key::Other, true)));
    assert!(!should_quit(&KeyInput { key: Key::Char('q'), pressed: false, control: false }));
}

#[test]
fn display_colors() {
    assert_eq!(OnOff::On.color(), DisplayColor::Green);
    assert_eq!(OnOff::Off.color(), DisplayColor::DarkGray);
    assert_eq!(LogLevel::Error.color(), DisplayColor::Red);
    assert_eq!(LogLevel::Warn.color(), DisplayColor::Yellow);
    assert_eq!(LogLevel::Info.color(), DisplayColor::Cyan);
    assert_eq!(LogLevel::Debug.color(), DisplayColor::Blue);
    assert_eq!(LogLevel::Trace.color(), DisplayColor::Magenta);
}
