use koto_playground::renderer::render_plan;
use koto_playground::{KotoMessage, Num, Point, StorableValue, StoredValue};

#[test]
fn drain_preserves_fifo_order() {
    let a = KotoMessage::BeginPath;
    let b = KotoMessage::MoveTo(Point { x: Num::Int(0), y: Num::Int(0) });
    let c = KotoMessage::LineTo(Point { x: Num::Int(5), y: Num::Int(5) });
    let plan = render_plan(vec![a.clone(), b.clone(), c.clone()]);
    assert_eq!(plan.commands, vec![a, b, c]);
    assert_eq!(plan.output, "");
}

#[test]
fn drain_accumulates_prints_and_flushes_once() {
    let plan = render_plan(vec![
        KotoMessage::Print("one\n".to_string()),
        KotoMessage::Stroke,
        KotoMessage::Print("two\n".to_string()),
        KotoMessage::Print("three\n".to_string()),
        KotoMessage::Fill,
    ]);
    assert_eq!(plan.commands, vec![KotoMessage::Stroke, KotoMessage::Fill]);
    assert_eq!(plan.output, "one\ntwo\nthree\n");
}

#[test]
fn drain_of_empty_queue_is_empty() {
    let plan = render_plan(vec![]);
    assert!(plan.commands.is_empty());
    assert_eq!(plan.output, "");
}

#[test]
fn stored_bool_round_trips() {
    let mut v: StoredValue<bool> = StoredValue::new("vim-bindings-enabled", None);
    assert_eq!(*v.value(), false);
    v.set(true);
    assert_eq!(v.save(), "true");
    let w: StoredValue<bool> = StoredValue::new("vim-bindings-enabled", Some(v.save()));
    assert_eq!(*w.value(), true);
}

#[test]
fn stored_bool_falls_back_on_garbage() {
    let v: StoredValue<bool> = StoredValue::new_with_default("flag", Some("yes".to_string()), true);
    assert_eq!(*v.value(), true);
    let w: StoredValue<bool> = StoredValue::new("flag", Some("maybe".to_string()));
    assert_eq!(*w.value(), false);
}

#[test]
fn stored_string_round_trips() {
    let mut v: StoredValue<String> = StoredValue::new_with_default(
        "script",
        None,
        "print 'hello'".to_string(),
    );
    assert_eq!(v.value(), "print 'hello'");
    assert_eq!(v.save(), "print 'hello'");
    v.set("x = 1".to_string());
    let w: StoredValue<String> = StoredValue::new("script", Some(v.save()));
    assert_eq!(w.value(), "x = 1");
    assert_eq!(w.name(), "script");
}

#[test]
fn bool_encoding_is_canonical() {
    assert_eq!(true.encode_storage(), "true");
    assert_eq!(false.encode_storage(), "false");
    assert_eq!(<bool as StorableValue>::parse_storage("true"), Some(true));
    assert_eq!(<bool as StorableValue>::parse_storage("false"), Some(false));
    assert_eq!(<bool as StorableValue>::parse_storage("True"), None);
}
