use composite::widget::Widget;
use composite::Component;

#[test]
fn it_works() {
    let result = 2 + 2;
    assert_eq!(result, 4);
}

#[test]
fn widget_report_is_repeatable() {
    let w = Widget::new("same");
    assert_eq!(w.report(), w.report());
}
