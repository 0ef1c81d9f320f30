use composite::static_p::{Container, Poly};
use composite::widget::{Number, Widget};
use composite::Component;

#[test]
fn test_container() {
    let mut widget_container: Container<Widget> = Default::default();
    assert_eq!(0, widget_container.add(Widget::new("Zero")));
    assert_eq!(1, widget_container.add(Widget::new("One")));
    assert_eq!("Widget 'Zero'.\nWidget 'One'.", widget_container.report());
    assert!(widget_container.remove(42).is_none());
    widget_container.remove(0).unwrap();

    let mut window: Container<Container<Widget>> = Default::default();
    assert_eq!(0, window.add(widget_container));
    assert_eq!(1, window.add(Default::default()));
    assert_eq!("Widget 'One'.", window.report());
}

#[test]
fn test_polymorphism() {
    let mut global_container: Container<Poly> = Default::default();
    let mut window1: Container<Poly> = Default::default();
    window1.add(Poly::Widget(Widget::new("0.0")));
    window1.add(Poly::Number(Number::new(1)));
    global_container.add(Poly::Container(window1));
    global_container.add(Poly::Widget(Widget::new("Main")));
    global_container.add(Poly::Number(Number::new(42)));
    let mut window2: Container<Poly> = Default::default();
    window2.add(Poly::Number(Number::new(2)));
    let mut window_inner: Container<Poly> = Default::default();
    window_inner.add(Poly::Widget(Widget::new("View")));
    window_inner.add(Poly::Widget(Widget::new("Bar")));
    window_inner.add(Poly::Number(Number::new(3)));
    window2.add(Poly::Container(window_inner));
    global_container.add(Poly::Container(window2));
    assert_eq!("Widget '0.0'.\nNumber 1.\nWidget 'Main'.\nNumber 42.\nNumber 2.\nWidget 'View'.\nWidget 'Bar'.\nNumber 3.", global_container.report());
}

#[test]
fn empty_container_reports_empty_text() {
    let widgets: Container<Widget> = Default::default();
    assert_eq!("", widgets.report());
    let tagged: Container<Poly> = Default::default();
    assert_eq!("", tagged.report());
}

#[test]
fn container_add_returns_each_position() {
    let mut c: Container<Number> = Default::default();
    for i in 0..10usize {
        assert_eq!(i, c.add(Number::new(i as i32)));
    }
}

#[test]
fn container_remove_out_of_range_changes_nothing() {
    let mut c: Container<Widget> = Default::default();
    c.add(Widget::new("a"));
    c.add(Widget::new("b"));
    let before = c.report();
    assert!(c.remove(42).is_none());
    assert!(c.remove(2).is_none());
    assert_eq!(before, c.report());
}

#[test]
fn container_remove_shifts_later_children() {
    let mut c: Container<Number> = Default::default();
    c.add(Number::new(1));
    c.add(Number::new(2));
    c.add(Number::new(3));
    let removed = c.remove(1).unwrap();
    assert_eq!("Number 2.", removed.report());
    assert_eq!("Number 1.\nNumber 3.", c.report());
    let removed = c.remove(0).unwrap();
    assert_eq!("Number 1.", removed.report());
    assert_eq!("Number 3.", c.report());
}

#[test]
fn container_report_is_repeatable() {
    let mut c: Container<Poly> = Default::default();
    c.add(Poly::Widget(Widget::new("x")));
    c.add(Poly::Container(Default::default()));
    assert_eq!(c.report(), c.report());
}

#[test]
fn nested_poly_container_reports_inline() {
    let mut inner: Container<Poly> = Default::default();
    inner.add(Poly::Number(Number::new(5)));
    inner.add(Poly::Widget(Widget::new("in")));
    let inner_text = inner.report();
    let mut outer: Container<Poly> = Default::default();
    outer.add(Poly::Widget(Widget::new("head")));
    outer.add(Poly::Container(inner));
    outer.add(Poly::Widget(Widget::new("tail")));
    assert_eq!(
        format!("Widget 'head'.\n{}\nWidget 'tail'.", inner_text),
        outer.report()
    );
}

#[test]
fn deep_container_nesting_reports_depth_first() {
    let mut level2: Container<Widget> = Default::default();
    level2.add(Widget::new("deep"));
    let mut level1: Container<Container<Widget>> = Default::default();
    level1.add(level2);
    let mut level0: Container<Container<Container<Widget>>> = Default::default();
    level0.add(level1);
    assert_eq!("Widget 'deep'.", level0.report());
}
