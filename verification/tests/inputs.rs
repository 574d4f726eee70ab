use charac::cell::{CellValue, PercentValue, Value};
use charac::field::{
    CustomTypes, DateFormat, DateTimeBased, FieldKind, Numerical, RatingIcon, SelectBased,
    TextBased, UserBased,
};
use charac::ids::CellId;
use charac::input::cell_value_from_input;
use charac::table::RecordPatch;
use charac::time::Datetime;

fn input(kind: &FieldKind, v: &str) -> Result<Value, String> {
    cell_value_from_input(kind, v.to_string(), None)
}

fn err(r: Result<Value, String>) -> String {
    match r {
        Err(e) => e,
        Ok(_) => panic!("expected an error"),
    }
}

#[test]
fn text_inputs() {
    match input(&FieldKind::Text(TextBased::SingleLineText), " a\nb ") {
        Ok(Value::SingleLine(v)) => assert_eq!(v.value, "a b"),
        _ => panic!(),
    }
    let long: String = "x".repeat(300);
    match input(&FieldKind::Text(TextBased::SingleLineText), &long) {
        Ok(Value::SingleLine(v)) => assert_eq!(v.value.len(), 255),
        _ => panic!(),
    }
    match input(&FieldKind::Text(TextBased::LongText), "*bold*") {
        Ok(Value::LongText(v)) => assert_eq!(v.value, "bold"),
        _ => panic!(),
    }
    match input(&FieldKind::Text(TextBased::RichText), " *bold* ") {
        Ok(Value::LongText(v)) => assert_eq!(v.value, "*bold*"),
        _ => panic!(),
    }
    match input(&FieldKind::Text(TextBased::Email), "A@B.io") {
        Ok(Value::Email(v)) => assert_eq!(v.value, "a@b.io"),
        _ => panic!(),
    }
    assert_eq!(err(input(&FieldKind::Text(TextBased::Email), "nope")), "INVALID_EMAIL_FORMAT");
    match input(&FieldKind::Text(TextBased::Url), "http://x.org") {
        Ok(Value::URL(v)) => assert_eq!(v.value, "http://x.org"),
        _ => panic!(),
    }
    assert_eq!(err(input(&FieldKind::Text(TextBased::Url), "x")), "INVALID_URL_FORMAT");
    match input(&FieldKind::Text(TextBased::PhoneNumber), "+44 20 7946 0958") {
        Ok(Value::Phone(v)) => assert_eq!(v.value, "+442079460958"),
        _ => panic!(),
    }
    assert_eq!(err(input(&FieldKind::Text(TextBased::PhoneNumber), "abc")), "UNPARSEABLE_PHONE_NUMBER");
}

#[test]
fn numeric_inputs() {
    let number = FieldKind::Number(Numerical::Number);
    match input(&number, "42") {
        Ok(Value::Number(n)) => assert_eq!(n.value, 42),
        _ => panic!(),
    }
    assert_eq!(err(input(&number, "  ")), "BOTH_VALUES_ARE_NONE");
    assert_eq!(err(input(&number, "-3")), "Invalid number");
    let percent = FieldKind::Number(Numerical::Percent { scale: 0 });
    match input(&percent, "") {
        Ok(Value::Percent(p)) => assert_eq!(p.value, 0),
        _ => panic!(),
    }
    match input(&percent, "-15") {
        Ok(Value::Percent(p)) => assert_eq!(p.value, -15),
        _ => panic!(),
    }
    assert_eq!(err(input(&percent, "1.5")), "Invalid percent");
    let money = FieldKind::Number(Numerical::Currency { currency: "EUR".to_string() });
    match input(&money, "-20") {
        Ok(Value::Currency(c)) => assert_eq!(c.value_as_str(), "-20 $"),
        _ => panic!(),
    }
    match input(&money, "") {
        Ok(Value::Currency(c)) => assert_eq!(c.value, 0),
        _ => panic!(),
    }
    assert_eq!(err(input(&money, "ten")), "Invalid currency value");
    let rating = FieldKind::Custom(CustomTypes::Rating { icon: RatingIcon::Star, max: 5 });
    match input(&rating, "9") {
        Ok(Value::Rating(r)) => assert_eq!(r.value, 5),
        _ => panic!(),
    }
    match input(&rating, " ") {
        Ok(Value::Rating(r)) => assert_eq!(r.value, 0),
        _ => panic!(),
    }
    assert_eq!(err(input(&rating, "300")), "Invalid rating");
    let decimal = FieldKind::Number(Numerical::Decimal { precision: 2, scale: 2 });
    assert_eq!(err(input(&decimal, "")), "BOTH_VALUES_ARE_NONE");
    assert_eq!(err(cell_value_from_input(&decimal, "x".to_string(), None)), "Invalid decimal");
    match cell_value_from_input(&decimal, "1.25".to_string(), Some(1.25f32.to_bits())) {
        Ok(Value::Decimal(d)) => assert_eq!(f32::from_bits(d.bits), 1.25),
        _ => panic!(),
    }
}

#[test]
fn date_and_other_inputs() {
    let date = FieldKind::DateTime(DateTimeBased::Date { format: DateFormat::ISO });
    assert_eq!(err(input(&date, "")), "Date cannot be empty");
    assert_eq!(err(input(&date, "someday")), "Invalid date format");
    let t = Datetime { secs: 86_400, nanos: 0 };
    match input(&date, "1970-01-02T00:00:00Z") {
        Ok(Value::Date(d)) => assert_eq!(d.value, t),
        _ => panic!(),
    }
    match input(&date, "2024-03-01T12:30:00.5Z") {
        Ok(Value::Date(d)) => assert_eq!(d.value, Datetime { secs: 1_709_296_200, nanos: 500_000_000 }),
        _ => panic!(),
    }
    let user = FieldKind::User(UserBased::SingleUser);
    match input(&user, " someone ") {
        Ok(Value::SingleLine(v)) => assert_eq!(v.value, "someone"),
        _ => panic!(),
    }
    let select = FieldKind::Select(SelectBased::SingleSelect { types: vec![] });
    match input(&select, "red") {
        Ok(Value::SingleLine(v)) => assert_eq!(v.value, "red"),
        _ => panic!(),
    }
}

fn cell(v: i32) -> CellValue {
    let t = Datetime { secs: 0, nanos: 0 };
    CellValue { id: CellId("c".to_string()), created_at: t, updated_at: t, value: Value::Percent(PercentValue::new(v)) }
}

#[test]
fn merge_query_with_cells() {
    let p = RecordPatch {
        changed_cells: Some(vec![("price".to_string(), cell(1)), ("qty".to_string(), cell(2))]),
    };
    assert_eq!(
        p.merge_query(),
        "UPDATE $record_id SET cells.price = $cells[0],cells.qty = $cells[1] , updated_at = time::now();"
    );
    let many: Vec<(String, CellValue)> = (0..12).map(|i| (format!("f{i}"), cell(i))).collect();
    let q = RecordPatch { changed_cells: Some(many) }.merge_query();
    assert!(q.contains("cells.f11 = $cells[11] , updated_at"));
}
