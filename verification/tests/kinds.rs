use charac::field::{CustomTypes, FieldKind, Numerical, RatingIcon, SelectBased, TextBased};
use charac::kinds::{
    display_value, field_kind_from_name, input_type, kind_name, str_equal, with_decimal_precision,
    with_rating_max,
};

#[test]
fn every_offered_name_round_trips() {
    for name in [
        "Text", "Long Text", "Email", "URL", "Phone", "Number", "Decimal", "Currency", "Percent",
        "Rating", "Datetime", "Select", "Select Multi",
    ] {
        assert_eq!(kind_name(&field_kind_from_name(name)), name);
    }
}

#[test]
fn unknown_names_give_text() {
    assert!(matches!(field_kind_from_name("Whatever"), FieldKind::Text(TextBased::SingleLineText)));
    assert!(matches!(field_kind_from_name("text"), FieldKind::Text(TextBased::SingleLineText)));
    assert_eq!(kind_name(&FieldKind::Custom(CustomTypes::CheckBox)), "Text");
    assert_eq!(kind_name(&FieldKind::Text(TextBased::RichText)), "Long Text");
}

#[test]
fn new_field_settings() {
    assert!(matches!(
        field_kind_from_name("Rating"),
        FieldKind::Custom(CustomTypes::Rating { icon: RatingIcon::Star, max: 5 })
    ));
    match field_kind_from_name("Currency") {
        FieldKind::Number(Numerical::Currency { currency }) => assert_eq!(currency, "USD"),
        _ => panic!(),
    }
    match field_kind_from_name("Select Multi") {
        FieldKind::Select(SelectBased::MultipleSelect { types }) => assert!(types.is_empty()),
        _ => panic!(),
    }
    assert!(matches!(
        field_kind_from_name("Decimal"),
        FieldKind::Number(Numerical::Decimal { precision: 2, scale: 2 })
    ));
}

#[test]
fn string_equality() {
    assert!(str_equal("abc", "abc"));
    assert!(!str_equal("abc", "abd"));
    assert!(!str_equal("ab", "abc"));
    assert!(str_equal("", ""));
}

#[test]
fn text_names_give_text_kinds() {
    assert!(matches!(field_kind_from_name("Text"), FieldKind::Text(TextBased::SingleLineText)));
    assert!(matches!(field_kind_from_name("Long Text"), FieldKind::Text(TextBased::LongText)));
    assert!(matches!(field_kind_from_name("Email"), FieldKind::Text(TextBased::Email)));
    assert!(matches!(field_kind_from_name("URL"), FieldKind::Text(TextBased::Url)));
    assert!(matches!(field_kind_from_name("Phone"), FieldKind::Text(TextBased::PhoneNumber)));
    assert!(matches!(field_kind_from_name("Number"), FieldKind::Number(Numerical::Number)));
    assert!(matches!(field_kind_from_name("anything"), FieldKind::Text(TextBased::SingleLineText)));
}

#[test]
fn rating_max_is_clamped_to_one_through_ten() {
    let star = || FieldKind::Custom(CustomTypes::Rating { icon: RatingIcon::Star, max: 5 });
    assert!(matches!(with_rating_max(star(), "7"), FieldKind::Custom(CustomTypes::Rating { max: 7, .. })));
    assert!(matches!(with_rating_max(star(), "0"), FieldKind::Custom(CustomTypes::Rating { max: 1, .. })));
    assert!(matches!(with_rating_max(star(), "300"), FieldKind::Custom(CustomTypes::Rating { max: 10, .. })));
    assert!(matches!(with_rating_max(star(), "abc"), FieldKind::Custom(CustomTypes::Rating { max: 5, .. })));
    assert!(matches!(
        with_rating_max(FieldKind::Number(Numerical::Number), "3"),
        FieldKind::Number(Numerical::Number)
    ));
}

#[test]
fn decimal_precision_is_read() {
    let dec = || FieldKind::Number(Numerical::Decimal { precision: 2, scale: 2 });
    assert!(matches!(
        with_decimal_precision(dec(), "4"),
        FieldKind::Number(Numerical::Decimal { precision: 4, scale: 2 })
    ));
    assert!(matches!(
        with_decimal_precision(dec(), "256"),
        FieldKind::Number(Numerical::Decimal { precision: 2, scale: 2 })
    ));
    assert!(matches!(
        with_decimal_precision(dec(), "-1"),
        FieldKind::Number(Numerical::Decimal { precision: 2, scale: 2 })
    ));
}

#[test]
fn cells_are_edited_with_matching_inputs() {
    assert_eq!(input_type(&FieldKind::Number(Numerical::Number)), "number");
    assert_eq!(input_type(&FieldKind::Custom(CustomTypes::Rating { icon: RatingIcon::Star, max: 5 })), "number");
    assert_eq!(input_type(&field_kind_from_name("Datetime")), "datetime-local");
    assert_eq!(input_type(&FieldKind::Text(TextBased::Email)), "email");
    assert_eq!(input_type(&FieldKind::Text(TextBased::Url)), "url");
    assert_eq!(input_type(&FieldKind::Text(TextBased::PhoneNumber)), "tel");
    assert_eq!(input_type(&FieldKind::Text(TextBased::LongText)), "text");
}

#[test]
fn cells_are_displayed_by_kind() {
    let pct = FieldKind::Number(Numerical::Percent { scale: 2 });
    let money = FieldKind::Number(Numerical::Currency { currency: "USD".to_string() });
    assert_eq!(display_value(&pct, "12"), "12%");
    assert_eq!(display_value(&pct, ""), "");
    assert_eq!(display_value(&money, "5"), "$ 5");
    assert_eq!(display_value(&money, "5 $"), "5 $");
    assert_eq!(display_value(&money, "€5"), "€5");
    assert_eq!(display_value(&money, ""), "");
    assert_eq!(display_value(&FieldKind::Text(TextBased::SingleLineText), "hi"), "hi");
}
