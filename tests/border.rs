use wr_bindings::border::{
    border_image_initial_value, border_shorthand_value, parse_border, parse_border_shorthand, parse_value, BorderLonghands,
    BorderWidth, Component, CssColor, Longhands, Parser,
};
use wr_bindings::style::{WrBorderStyle, WrRepeatMode};

#[test]
fn all_three_in_any_order() {
    let mut p = Parser::new(vec![
        Component::Width(BorderWidth::Thick),
        Component::Color(CssColor::Rgba(1, 2, 3, 255)),
        Component::Style(WrBorderStyle::Dashed),
    ]);
    assert_eq!(
        parse_value(&mut p),
        Ok(Longhands { color: CssColor::Rgba(1, 2, 3, 255), style: WrBorderStyle::Dashed, width: BorderWidth::Thick })
    );
    assert!(p.is_exhausted());
}

#[test]
fn missing_parts_take_initial_values() {
    let mut p = Parser::new(vec![Component::Style(WrBorderStyle::Solid)]);
    assert_eq!(
        parse_border(&mut p),
        Ok((CssColor::CurrentColor, WrBorderStyle::Solid, BorderWidth::Medium))
    );
}

#[test]
fn nothing_recognised_is_an_error_and_consumes_nothing() {
    let mut p = Parser::new(vec![Component::Other, Component::Style(WrBorderStyle::Solid)]);
    assert_eq!(parse_value(&mut p), Err(()));
    assert_eq!(p.position, 0);
    let mut empty = Parser::new(vec![]);
    assert_eq!(parse_border(&mut empty), Err(()));
}

#[test]
fn a_repeated_part_stops_the_shorthand() {
    let mut p = Parser::new(vec![
        Component::Width(BorderWidth::Length(120)),
        Component::Width(BorderWidth::Thin),
    ]);
    assert_eq!(
        parse_border(&mut p),
        Ok((CssColor::CurrentColor, WrBorderStyle::NoStyle, BorderWidth::Length(120)))
    );
    assert_eq!(p.position, 1);
    assert!(!p.is_exhausted());
}

#[test]
fn border_sets_all_four_sides() {
    let mut p = Parser::new(vec![Component::Color(CssColor::Rgba(9, 9, 9, 255)), Component::Width(BorderWidth::Thin)]);
    let b = parse_border_shorthand(&mut p).expect("parses");
    let side = Longhands { color: CssColor::Rgba(9, 9, 9, 255), style: WrBorderStyle::NoStyle, width: BorderWidth::Thin };
    assert_eq!(b, BorderLonghands { top: side, right: side, bottom: side, left: side, image: border_image_initial_value() });
    assert_eq!(b.image.source, None);
    assert_eq!(b.image.repeat_horizontal, WrRepeatMode::Stretch);
    assert_eq!(border_shorthand_value(&b), Some(side));
    let mut uneven = b;
    uneven.left.style = WrBorderStyle::Solid;
    assert_eq!(border_shorthand_value(&uneven), None);
}
