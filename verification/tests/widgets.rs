use composite::widget::{Number, Widget, Window, WindowChild};
use composite::{Component, Composite};

#[test]
fn test_widgets() {
    let widget = Widget::new("Test");
    assert_eq!("Widget 'Test'.", widget.report());

    let mut w1 = Window::new();
    assert_eq!(
        0,
        w1.add_component(WindowChild::Widget(Widget::new("Widget 1")))
    );
    assert_eq!(
        1,
        w1.add_component(WindowChild::Widget(Widget::new("Widget 2")))
    );
    assert_eq!(2, w1.add_component(WindowChild::Number(Number::new(3))));
    assert_eq!(
        "Widget 'Widget 1'.\nWidget 'Widget 2'.\nNumber 3.",
        w1.report()
    );
    let mut w2 = Window::new();
    assert_eq!(
        0,
        w2.add_component(WindowChild::Widget(Widget::new("Widget 4")))
    );
    assert_eq!("Widget 'Widget 4'.", w2.report());
    assert!(w1.remove_component(42).is_none());
    w1.remove_component(1).unwrap();

    let mut window = Window::new();
    assert_eq!(0, window.add_component(WindowChild::Window(Box::new(w1))));
    assert_eq!(1, window.add_component(WindowChild::Number(Number::new(42))));
    assert_eq!(2, window.add_component(WindowChild::Window(Box::new(w2))));
    assert_eq!(
        "Widget 'Widget 1'.\nNumber 3.\nNumber 42.\nWidget 'Widget 4'.",
        window.report()
    );

    window.remove_component(0).unwrap();
    assert_eq!("Number 42.\nWidget 'Widget 4'.", window.report());
}

#[test]
fn number_reports_signed_decimal() {
    assert_eq!("Number 0.", Number::new(0).report());
    assert_eq!("Number 7.", Number::new(7).report());
    assert_eq!("Number -1.", Number::new(-1).report());
    assert_eq!("Number 2147483647.", Number::new(i32::MAX).report());
    assert_eq!("Number -2147483648.", Number::new(i32::MIN).report());
}

#[test]
fn widget_report_quotes_its_name() {
    assert_eq!("Widget ''.", Widget::new("").report());
    assert_eq!("Widget 'a b'.", Widget::new("a b").report());
}

#[test]
fn empty_window_reports_empty_text() {
    let w = Window::new();
    assert_eq!("", w.report());
    let d: Window = Default::default();
    assert_eq!("", d.report());
}

#[test]
fn window_add_returns_each_position() {
    let mut w = Window::new();
    for i in 0..10usize {
        assert_eq!(i, w.add_component(WindowChild::Number(Number::new(i as i32))));
    }
}

#[test]
fn window_remove_out_of_range_changes_nothing() {
    let mut w = Window::new();
    w.add_component(WindowChild::Widget(Widget::new("a")));
    w.add_component(WindowChild::Number(Number::new(2)));
    let before = w.report();
    assert!(w.remove_component(42).is_none());
    assert!(w.remove_component(2).is_none());
    assert_eq!(before, w.report());
}

#[test]
fn window_report_is_repeatable() {
    let mut w = Window::new();
    w.add_component(WindowChild::Widget(Widget::new("x")));
    w.add_component(WindowChild::Window(Box::new(Window::new())));
    assert_eq!(w.report(), w.report());
}

#[test]
fn empty_nested_window_keeps_its_line() {
    let mut w = Window::new();
    w.add_component(WindowChild::Window(Box::new(Window::new())));
    w.add_component(WindowChild::Number(Number::new(1)));
    assert_eq!("\nNumber 1.", w.report());
}

#[test]
fn trailing_empty_window_is_trimmed() {
    let mut w = Window::new();
    w.add_component(WindowChild::Number(Number::new(1)));
    w.add_component(WindowChild::Window(Box::new(Window::new())));
    assert_eq!("Number 1.", w.report());
}
