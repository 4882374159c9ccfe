use fanz::consolebuiltins::{color, functions, gset, keypressed, put, rect, HostValue, ZColor};
use fanz::zvm::{ZEvent, ZVMState};

fn pressed(keys: &[&str]) -> ZVMState {
    let mut state = ZVMState::new();
    state.set_keys(keys.iter().map(|k| k.to_string()).collect());
    state
}

#[test]
fn bridge_table_names_and_arities() {
    let table = functions();
    let expected = [("key", 1), ("put", 1), ("color", 3), ("gset", 3), ("rect", 5)];
    assert_eq!(table.len(), expected.len());
    for (entry, (name, arity)) in table.iter().zip(expected.iter()) {
        assert_eq!(entry.0, *name);
        assert_eq!(entry.1, *arity);
    }
}

#[test]
fn color_builds_the_native_value() {
    match color(10, 20, 30) {
        Ok(HostValue::Color(c)) => assert_eq!(c, ZColor { r: 10, g: 20, b: 30 }),
        _ => panic!("color must return a native color"),
    }
}

#[test]
fn color_saturates_out_of_range_channels() {
    match color(-5, 256, 300) {
        Ok(HostValue::Color(c)) => assert_eq!(c, ZColor { r: 0, g: 255, b: 255 }),
        _ => panic!("color must return a native color"),
    }
}

#[test]
fn tocolor_hands_out_the_channels() {
    let c = ZColor { r: 1, g: 2, b: 3 };
    assert_eq!(c.tocolor(), (1, 2, 3));
}

#[test]
fn keypressed_reads_the_snapshot() {
    let state = pressed(&["Up", "Space"]);
    match keypressed(&state, &String::from("Up")) {
        Ok(HostValue::Bool(b)) => assert!(b),
        _ => panic!("key must return a bool"),
    }
    match keypressed(&state, &String::from("Down")) {
        Ok(HostValue::Bool(b)) => assert!(!b),
        _ => panic!("key must return a bool"),
    }
}

#[test]
fn put_appends_an_emit_command() {
    let mut state = ZVMState::new();
    let r = put(&mut state, String::from("hi"));
    assert!(r.is_ok());
    assert_eq!(state.buffer.len(), 1);
    match &state.buffer[0] {
        ZEvent::Put(s) => assert_eq!(s, "hi"),
        _ => panic!("put must record Put"),
    }
}

#[test]
fn gset_with_a_color_appends_set_pixel() {
    let mut state = ZVMState::new();
    let c = color(1, 2, 3).unwrap();
    let r = gset(&mut state, 4, 5, c);
    assert!(r.is_ok());
    assert_eq!(state.buffer.len(), 1);
    match &state.buffer[0] {
        ZEvent::GSet { x, y, color } => {
            assert_eq!((*x, *y), (4, 5));
            assert_eq!(*color, ZColor { r: 1, g: 2, b: 3 });
        }
        _ => panic!("gset must record GSet"),
    }
}

#[test]
fn gset_with_a_non_color_raises_type_error_and_appends_nothing() {
    let mut state = ZVMState::new();
    let r = gset(&mut state, 4, 5, HostValue::Num(7));
    match r {
        Err(e) => assert_eq!(e.message, "expected a color value"),
        Ok(_) => panic!("a number is no color"),
    }
    assert!(state.buffer.is_empty());
}

#[test]
fn rect_with_a_color_appends_fill_rect() {
    let mut state = ZVMState::new();
    let c = color(9, 9, 9).unwrap();
    let r = rect(&mut state, 1, 2, 3, 4, c);
    assert!(r.is_ok());
    assert_eq!(state.buffer.len(), 1);
    match &state.buffer[0] {
        ZEvent::Rect { x, y, w, h, color } => {
            assert_eq!((*x, *y, *w, *h), (1, 2, 3, 4));
            assert_eq!(*color, ZColor { r: 9, g: 9, b: 9 });
        }
        _ => panic!("rect must record Rect"),
    }
}

#[test]
fn rect_with_a_non_color_raises_type_error_and_appends_nothing() {
    let mut state = ZVMState::new();
    let r = rect(&mut state, 1, 2, 3, 4, HostValue::Str(String::from("red")));
    assert!(r.is_err());
    assert!(state.buffer.is_empty());
}

#[test]
fn buffer_preserves_call_order() {
    let mut state = ZVMState::new();
    put(&mut state, String::from("first")).unwrap();
    let c = color(1, 1, 1).unwrap();
    gset(&mut state, 0, 0, c).unwrap();
    let c = color(2, 2, 2).unwrap();
    rect(&mut state, 0, 0, 8, 8, c).unwrap();
    put(&mut state, String::from("last")).unwrap();
    assert_eq!(state.buffer.len(), 4);
    assert!(matches!(&state.buffer[0], ZEvent::Put(s) if s == "first"));
    assert!(matches!(state.buffer[1], ZEvent::GSet { .. }));
    assert!(matches!(state.buffer[2], ZEvent::Rect { .. }));
    assert!(matches!(&state.buffer[3], ZEvent::Put(s) if s == "last"));
}

#[test]
fn failed_call_leaves_earlier_commands_in_place() {
    let mut state = ZVMState::new();
    put(&mut state, String::from("kept")).unwrap();
    assert!(gset(&mut state, 0, 0, HostValue::Null).is_err());
    assert_eq!(state.buffer.len(), 1);
    assert!(matches!(&state.buffer[0], ZEvent::Put(s) if s == "kept"));
}
