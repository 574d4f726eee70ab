use charac::cell::{
    CurrencySymbol, CurrencyValue, DateValue, DecimalValue, DurationValue, Email,
    LinkValue, LongTextValue, LookUpValue, NumberValue, PercentValue, PhoneValue, RatingValue,
    RollUpValue, SingleLineValue, UrlValue, Value,
};
use charac::field::{AggregateFunction, LinkType};
use charac::ids::{FieldId, RecordId, TableId};
use charac::time::{Datetime, Duration};

fn rid(s: &str) -> RecordId {
    RecordId(s.to_string())
}

#[test]
fn single_line_flattens_cuts_and_trims() {
    let v = SingleLineValue::new(None, 255, Some("  hello\nworld\r ".to_string()));
    assert_eq!(v.value, "hello world");
    let v = SingleLineValue::new(None, 5, Some("  ab\ncdefg".to_string()));
    assert_eq!(v.value, "ab");
    let v = SingleLineValue::new(Some("fallback".to_string()), 255, None);
    assert_eq!(v.value, "fallback");
    let v = SingleLineValue::new(Some("fallback".to_string()), 255, Some("given".to_string()));
    assert_eq!(v.value, "given");
    let v = SingleLineValue::new(None, 10, None);
    assert_eq!(v.value, "");
    // cutting counts characters, not bytes
    let v = SingleLineValue::new(None, 3, Some("héllo".to_string()));
    assert_eq!(v.value, "hél");
}

#[test]
fn long_text_strips_markdown_unless_rich() {
    let v = LongTextValue::new("  **Hello** _world_ [link] `code` #tag ".to_string(), false);
    assert_eq!(v.value, "Hello world link code tag");
    let v = LongTextValue::new("  **Hello**\n".to_string(), true);
    assert_eq!(v.value, "**Hello**");
}

#[test]
fn email_is_trimmed_and_lowered() {
    let e = Email::new("Foo.Bar@Example.COM".to_string()).unwrap();
    assert_eq!(e.value(), "foo.bar@example.com");
    // the address is checked before it is trimmed
    assert_eq!(Email::new(" a@b.com ".to_string()).err().unwrap(), "INVALID_EMAIL_FORMAT");
    assert_eq!(Email::new("not an email".to_string()).err().unwrap(), "INVALID_EMAIL_FORMAT");
    assert_eq!(Email::new(String::new()).err().unwrap(), "INVALID_EMAIL_FORMAT");
}

#[test]
fn url_is_validated_and_trimmed() {
    let u = UrlValue::new("https://example.com/a?b=c".to_string()).unwrap();
    assert_eq!(u.value(), "https://example.com/a?b=c");
    let u = UrlValue::new(" https://example.com ".to_string()).unwrap();
    assert_eq!(u.value(), "https://example.com");
    assert_eq!(UrlValue::new("no scheme here".to_string()).err().unwrap(), "INVALID_URL_FORMAT");
}

#[test]
fn phone_numbers_are_kept_in_e164() {
    let p = PhoneValue::new("+1 415 555 2671".to_string(), None).unwrap();
    assert_eq!(p.value(), "+14155552671");
    let p = PhoneValue::new("044 668 18 00".to_string(), Some("CH")).unwrap();
    assert_eq!(p.value(), "+41446681800");
    assert_eq!(
        PhoneValue::new("hello".to_string(), None).err().unwrap(),
        "UNPARSEABLE_PHONE_NUMBER"
    );
}

#[test]
fn phone_read_but_not_valid() {
    assert_eq!(
        PhoneValue::new("+44 791234567".to_string(), None).err().unwrap(),
        "INVALID_PHONE_NUMBER"
    );
    assert_eq!(
        PhoneValue::new("+1 2530000".to_string(), None).err().unwrap(),
        "INVALID_PHONE_NUMBER"
    );
    let p = PhoneValue::new("(415) 555-2671".to_string(), Some("US")).unwrap();
    assert_eq!(p.value(), "+14155552671");
}

#[test]
fn rating_is_capped() {
    assert_eq!(RatingValue::new(Some(7), 5).value, 5);
    assert_eq!(RatingValue::new(Some(3), 5).value, 3);
    assert_eq!(RatingValue::new(None, 5).value, 0);
    assert_eq!(RatingValue::new(Some(0), 0).value, 0);
}

#[test]
fn number_and_decimal_defaults() {
    assert_eq!(*NumberValue::new(Some(3), Some(9)).unwrap().value(), 3);
    assert_eq!(*NumberValue::new(None, Some(9)).unwrap().value(), 9);
    assert_eq!(NumberValue::new(None, None).err().unwrap(), "BOTH_VALUES_ARE_NONE");
    let half = 0.5f32.to_bits();
    assert_eq!(DecimalValue::new(Some(half), None).unwrap().value(), half);
    assert_eq!(DecimalValue::new(None, Some(half)).unwrap().value(), half);
    assert_eq!(DecimalValue::new(None, None).err().unwrap(), "BOTH_VALUES_ARE_NONE");
}

#[test]
fn percent_duration_and_date() {
    assert_eq!(PercentValue::new(-12).value(), -12);
    assert_eq!(DurationValue::new(None).value(), Duration { secs: 0, nanos: 0 });
    let d = Duration { secs: 90, nanos: 5 };
    assert_eq!(DurationValue::new(Some(d)).value(), d);
    let t = Datetime { secs: 1_700_000_000, nanos: 0 };
    assert_eq!(DateValue::new(Some(t)).value, t);
    let now = DateValue::new(None).value;
    assert!(now.secs > 1_700_000_000);
    assert!(now.nanos < 1_000_000_000);
}

#[test]
fn currency_text() {
    let sym = CurrencySymbol { symbol: "€".to_string(), subunit_symbol: Some("c".to_string()) };
    let c = CurrencyValue::new(-305, sym);
    assert_eq!(c.value_as_int(), -305);
    assert_eq!(c.value_as_str(), "-305 €");
    let c = CurrencyValue::new(i64::MIN, CurrencySymbol { symbol: "x".to_string(), subunit_symbol: None });
    assert_eq!(c.value_as_str(), "-9223372036854775808 x");
    let c = CurrencyValue::new(0, CurrencySymbol { symbol: "$".to_string(), subunit_symbol: None });
    assert_eq!(c.value_as_str(), "0 $");
}

#[test]
fn one_to_one_link_keeps_first_record() {
    let ids = vec![rid("a"), rid("b"), rid("c")];
    let l = LinkValue::new(TableId("t".to_string()), LinkType::OneToOne, Some(ids.clone()));
    assert_eq!(l.record_ids(), &[rid("a")][..]);
    let l = LinkValue::new(TableId("t".to_string()), LinkType::ManyToMany, Some(ids.clone()));
    assert_eq!(l.record_ids(), &ids[..]);
    let l = LinkValue::new(TableId("t".to_string()), LinkType::HasMany, None);
    assert!(l.record_ids().is_empty());
    let l = LinkValue::new(TableId("t".to_string()), LinkType::OneToOne, Some(vec![rid("z")]));
    assert_eq!(l.record_ids(), &[rid("z")][..]);
}

#[test]
fn roll_up_and_look_up_getters() {
    let inner = Value::Percent(PercentValue::new(42));
    let r = RollUpValue::new(
        FieldId("link".to_string()),
        FieldId("target".to_string()),
        AggregateFunction::Sum,
        inner,
    );
    assert_eq!(r.link_field_id(), FieldId("link".to_string()));
    assert_eq!(r.target_field_id(), FieldId("target".to_string()));
    assert_eq!(r.function(), AggregateFunction::Sum);
    assert!(matches!(r.value(), Value::Percent(p) if p.value == 42));
    let links = Value::Link(LinkValue::new(
        TableId("t".to_string()),
        LinkType::ManyToMany,
        Some(vec![rid("a"), rid("b")]),
    ));
    let l = LookUpValue::new(FieldId("l".to_string()), FieldId("f".to_string()), links);
    assert_eq!(l.link_field_id(), FieldId("l".to_string()));
    assert_eq!(l.target_field_id(), FieldId("f".to_string()));
    match l.value() {
        Value::Link(v) => assert_eq!(v.record_ids, vec![rid("a"), rid("b")]),
        _ => panic!("wrong kind"),
    }
}
