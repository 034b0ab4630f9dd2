use bbcode_tree::nodes::{DoubleList, Image, KeyValue, List, Spoiler, Text};
use bbcode_tree::numeral::usize_to_string;
use bbcode_tree::render::ToBBCode;
use bbcode_tree::style::TextStyle;

#[test]
fn text_plain() {
    assert_eq!(Text::new("hello").to_bbcode(), "hello");
}

#[test]
fn text_bold_italic_nesting() {
    let t = Text::new("X").style(TextStyle::bold().merge(TextStyle::italic()));
    assert_eq!(t.to_bbcode(), "[i][b]X[/b][/i]");
}

#[test]
fn text_color_size_nesting() {
    let style = TextStyle::color(String::from("red")).merge(TextStyle::size(10));
    let t = Text::new("X").style(style);
    assert_eq!(t.to_bbcode(), "[size=10][color=red]X[/color][/size]");
}

#[test]
fn text_all_attributes() {
    let style = TextStyle::color(String::from("blue"))
        .merge(TextStyle::size(7))
        .merge(TextStyle::bold())
        .merge(TextStyle::italic());
    let t = Text::new("Y").style(style);
    assert_eq!(t.to_bbcode(), "[i][b][size=7][color=blue]Y[/color][/size][/b][/i]");
}

#[test]
fn merge_default_is_identity() {
    let s = TextStyle::color(String::from("red")).merge(TextStyle::bold());
    let merged = TextStyle::default().merge(s);
    assert_eq!(merged.color, Some(String::from("red")));
    assert_eq!(merged.size, None);
    assert!(merged.bold);
    assert!(!merged.italic);

    let s = TextStyle::color(String::from("red")).merge(TextStyle::bold());
    let merged = s.merge(TextStyle::default());
    assert_eq!(merged.color, Some(String::from("red")));
    assert_eq!(merged.size, None);
    assert!(merged.bold);
    assert!(!merged.italic);
}

#[test]
fn merge_override_wins() {
    let merged = TextStyle::color(String::from("red")).merge(TextStyle::color(String::from("green")));
    assert_eq!(merged.color, Some(String::from("green")));
    let merged = TextStyle::size(8).merge(TextStyle::size(9));
    assert_eq!(merged.size, Some(9));
}

#[test]
fn key_value_unstyled() {
    let kv = KeyValue::new("Health", "50");
    assert_eq!(kv.to_bbcode(), "Health: 50");
}

#[test]
fn key_value_numeric_value() {
    let kv = KeyValue::new("Health", usize_to_string(50).as_str());
    assert_eq!(kv.to_bbcode(), "Health: 50");
}

#[test]
fn key_value_styled_halves() {
    let kv = KeyValue::new("Points", "10").style(TextStyle::bold(), TextStyle::italic());
    assert_eq!(kv.to_bbcode(), "[b]Points:[/b][i] 10[/i]");
}

#[test]
fn list_joins_with_line_breaks() {
    let l = List::new(vec![Text::new("A"), Text::new("B"), Text::new("C")]);
    assert_eq!(l.to_bbcode(), "A\nB\nC");
}

#[test]
fn list_single_item_has_no_separator() {
    let l = List::new(vec![Text::new("A")]);
    assert_eq!(l.to_bbcode(), "A");
}

#[test]
fn double_list_joins_with_blank_lines() {
    let l = DoubleList::new(vec![Text::new("A"), Text::new("B")]);
    assert_eq!(l.to_bbcode(), "A\n\nB");
}

#[test]
fn image_tag() {
    assert_eq!(Image::new("http://x/y.png").to_bbcode(), "[img]http://x/y.png[/img]");
}

#[test]
fn spoiler_wraps_image() {
    let s = Spoiler(Image::new("http://x/y.png"));
    assert_eq!(s.to_bbcode(), "[spoiler][img]http://x/y.png[/img][/spoiler]");
}

#[test]
fn render_is_pure() {
    let build = || {
        List::new(vec![
            Text::new("A").style(TextStyle::bold()),
            Text::new("B").style(TextStyle::color(String::from("red"))),
        ])
    };
    assert_eq!(build().to_bbcode(), build().to_bbcode());
}

#[test]
fn numerals() {
    assert_eq!(usize_to_string(0), "0");
    assert_eq!(usize_to_string(7), "7");
    assert_eq!(usize_to_string(10), "10");
    assert_eq!(usize_to_string(120), "120");
    assert_eq!(usize_to_string(9876543210), "9876543210");
}
