use scroll_effects::decimal::{i32_to_dec, u64_to_dec};
use scroll_effects::hstack;
use scroll_effects::style::{append_user_style, class_list, joined_class, merged_class};
use scroll_effects::vstack;

#[test]
fn decimal_rendering_of_small_and_large_numbers() {
    assert_eq!(u64_to_dec(0), "0");
    assert_eq!(u64_to_dec(7), "7");
    assert_eq!(u64_to_dec(10), "10");
    assert_eq!(u64_to_dec(123), "123");
    assert_eq!(u64_to_dec(u64::MAX), "18446744073709551615");
}

#[test]
fn decimal_rendering_of_signed_numbers() {
    assert_eq!(i32_to_dec(0), "0");
    assert_eq!(i32_to_dec(42), "42");
    assert_eq!(i32_to_dec(-1), "-1");
    assert_eq!(i32_to_dec(-12), "-12");
    assert_eq!(i32_to_dec(i32::MAX), "2147483647");
    assert_eq!(i32_to_dec(i32::MIN), "-2147483648");
}

#[test]
fn hstack_css_keywords() {
    assert_eq!(hstack::AlignItems::FlexStart.to_css_value(), "flex-start");
    assert_eq!(hstack::AlignItems::Center.to_css_value(), "center");
    assert_eq!(hstack::AlignItems::FlexEnd.to_css_value(), "flex-end");
    assert_eq!(hstack::AlignItems::Stretch.to_css_value(), "stretch");
    assert_eq!(hstack::AlignItems::Baseline.to_css_value(), "baseline");
    assert_eq!(hstack::JustifyContent::FlexStart.to_css_value(), "flex-start");
    assert_eq!(hstack::JustifyContent::Center.to_css_value(), "center");
    assert_eq!(hstack::JustifyContent::FlexEnd.to_css_value(), "flex-end");
    assert_eq!(hstack::JustifyContent::SpaceBetween.to_css_value(), "space-between");
    assert_eq!(hstack::JustifyContent::SpaceAround.to_css_value(), "space-around");
    assert_eq!(hstack::JustifyContent::SpaceEvenly.to_css_value(), "space-evenly");
    assert_eq!(hstack::FlexWrap::NoWrap.to_css_value(), "nowrap");
    assert_eq!(hstack::FlexWrap::Wrap.to_css_value(), "wrap");
    assert_eq!(hstack::FlexWrap::WrapReverse.to_css_value(), "wrap-reverse");
}

#[test]
fn hstack_defaults() {
    assert_eq!(hstack::AlignItems::default(), hstack::AlignItems::FlexStart);
    assert_eq!(hstack::JustifyContent::default(), hstack::JustifyContent::FlexStart);
    assert_eq!(hstack::FlexWrap::default(), hstack::FlexWrap::NoWrap);
}

#[test]
fn vstack_css_keywords() {
    assert_eq!(vstack::AlignItems::Center.to_css_value(), "center");
    assert_eq!(vstack::AlignItems::Baseline.to_css_value(), "baseline");
    assert_eq!(vstack::JustifyContent::SpaceEvenly.to_css_value(), "space-evenly");
    assert_eq!(vstack::FlexWrap::WrapReverse.to_css_value(), "wrap-reverse");
    assert_eq!(vstack::AlignItems::default(), vstack::AlignItems::FlexStart);
    assert_eq!(vstack::JustifyContent::default(), vstack::JustifyContent::FlexStart);
    assert_eq!(vstack::FlexWrap::default(), vstack::FlexWrap::NoWrap);
}

#[test]
fn hstack_base_style_with_every_input() {
    let spacing = String::from("2rem");
    let style = hstack::hstack_base_style(
        Some(&spacing),
        hstack::AlignItems::Center,
        hstack::JustifyContent::SpaceBetween,
        hstack::FlexWrap::Wrap,
    );
    assert_eq!(
        style,
        "display:flex;flex-direction:row;gap:2rem;align-items:center;justify-content:space-between;flex-wrap:wrap;"
    );
}

#[test]
fn hstack_base_style_skips_an_absent_or_empty_gap() {
    let defaults = hstack::hstack_base_style(
        None,
        hstack::AlignItems::FlexStart,
        hstack::JustifyContent::FlexStart,
        hstack::FlexWrap::NoWrap,
    );
    assert_eq!(
        defaults,
        "display:flex;flex-direction:row;align-items:flex-start;justify-content:flex-start;flex-wrap:nowrap;"
    );
    let empty = String::new();
    let with_empty = hstack::hstack_base_style(
        Some(&empty),
        hstack::AlignItems::FlexStart,
        hstack::JustifyContent::FlexStart,
        hstack::FlexWrap::NoWrap,
    );
    assert_eq!(with_empty, defaults);
}

#[test]
fn hstack_item_style_with_every_input() {
    let basis = String::from("30%");
    let align = String::from("center");
    let style = hstack::hstack_item_style(Some(true), Some(false), Some(&basis), Some(&align), Some(-2));
    assert_eq!(
        style,
        "flex-grow:1;flex-shrink:0;flex-basis:30%;align-self:center;order:-2;"
    );
}

#[test]
fn hstack_item_style_of_nothing_is_empty() {
    let style = hstack::hstack_item_style(None, None, None, None, None);
    assert_eq!(style, "");
}

#[test]
fn vstack_base_style_with_every_input() {
    let spacing = String::from("0.75rem");
    let style = vstack::vstack_base_style(
        Some(&spacing),
        Some(&vstack::AlignItems::Center),
        Some(&vstack::JustifyContent::SpaceAround),
        Some(&vstack::FlexWrap::NoWrap),
    );
    assert_eq!(
        style,
        "display:flex;flex-direction:column;gap:0.75rem;align-items:center;justify-content:space-around;flex-wrap:nowrap;"
    );
}

#[test]
fn vstack_base_style_of_nothing_is_the_bare_column() {
    let style = vstack::vstack_base_style(None, None, None, None);
    assert_eq!(style, "display:flex;flex-direction:column;");
}

#[test]
fn vstack_item_style_with_every_input() {
    let flex = String::from("1 1 auto");
    let basis = String::from("10rem");
    let user = String::from("color:red");
    let style = vstack::vstack_item_style(
        Some(&vstack::AlignItems::FlexEnd),
        Some(&flex),
        Some(3),
        Some(false),
        Some(true),
        Some(&basis),
        Some(&user),
    );
    assert_eq!(
        style,
        "align-self:flex-end;flex:1 1 auto;order:3;flex-grow:0;flex-shrink:1;flex-basis:10rem;color:red"
    );
}

#[test]
fn vstack_item_style_skips_empty_strings() {
    let empty = String::new();
    let style = vstack::vstack_item_style(
        None,
        Some(&empty),
        None,
        None,
        None,
        Some(&empty),
        Some(&empty),
    );
    assert_eq!(style, "");
}

#[test]
fn merged_class_skips_an_empty_user_class() {
    assert_eq!(merged_class("h-stack", None), "h-stack");
    let empty = String::new();
    assert_eq!(merged_class("h-stack", Some(&empty)), "h-stack");
    let user = String::from("navbar");
    assert_eq!(merged_class("h-stack", Some(&user)), "h-stack navbar");
    let container = String::from("page");
    assert_eq!(
        merged_class("stacking-container", Some(&container)),
        "stacking-container page"
    );
}

#[test]
fn class_list_joins_any_given_user_class() {
    assert_eq!(class_list("v-stack", None), "v-stack");
    let user = String::from("hero");
    assert_eq!(class_list("v-stack", Some(&user)), "v-stack hero");
    let empty = String::new();
    assert_eq!(class_list("v-stack", Some(&empty)), "v-stack ");
}

#[test]
fn joined_class_uses_one_space() {
    assert_eq!(joined_class("site-header", "sticky"), "site-header sticky");
    assert_eq!(joined_class("site-header", ""), "site-header ");
}

#[test]
fn append_user_style_inserts_the_missing_semicolon() {
    let mut styles = String::from("display:flex;");
    append_user_style(&mut styles, "color:red");
    assert_eq!(styles, "display:flex;color:red");

    let mut unterminated = String::from("display:flex");
    append_user_style(&mut unterminated, "color:red");
    assert_eq!(unterminated, "display:flex;color:red");

    let mut empty = String::new();
    append_user_style(&mut empty, "color:red");
    assert_eq!(empty, "color:red");

    let mut untouched = String::from("display:flex");
    append_user_style(&mut untouched, "");
    assert_eq!(untouched, "display:flex");
}
