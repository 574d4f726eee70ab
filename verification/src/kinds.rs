//! The names under which the front end offers field kinds, and the kind a
//! new field of each name gets.

use crate::field::{
    CustomTypes, DateFormat, DateTimeBased, FieldKind, Numerical, RatingIcon, SelectBased,
    TextBased, TimeFormat,
};
use crate::decimal::{parse_int, parse_u8, parse_usize};
use crate::text::{chars_of, joined};
use vstd::prelude::*;

verus! {

/// Are the two strings equal?
pub fn str_equal(a: &str, b: &str) -> (r: bool)
    ensures
        r == (a@ == b@),
{
    let x = chars_of(a);
    let y = chars_of(b);
    if x.len() != y.len() {
        return false;
    }
    let mut i: usize = 0;
    while i < x.len()
        invariant
            x@ == a@,
            y@ == b@,
            x.len() == y.len(),
            i <= x.len(),
            x@.take(i as int) == y@.take(i as int),
        decreases x.len() - i,
    {
        if x[i] != y[i] {
            assert(x@[i as int] != y@[i as int]);
            return false;
        }
        assert(x@.take(i + 1) =~= x@.take(i as int).push(x@[i as int]));
        assert(y@.take(i + 1) =~= y@.take(i as int).push(y@[i as int]));
        i = i + 1;
    }
    assert(x@.take(x.len() as int) =~= x@);
    assert(y@.take(y.len() as int) =~= y@);
    true
}

/// The names of the field kinds the front end offers.
pub open spec fn kind_names() -> Seq<Seq<char>> {
    seq![
        "Text"@,
        "Long Text"@,
        "Email"@,
        "URL"@,
        "Phone"@,
        "Number"@,
        "Decimal"@,
        "Currency"@,
        "Percent"@,
        "Rating"@,
        "Datetime"@,
        "Select"@,
        "Select Multi"@,
    ]
}

/// The name under which the front end shows a field kind; kinds it does not
/// offer show as `Text`.
pub open spec fn spec_kind_name(kind: FieldKind) -> Seq<char> {
    match kind {
        FieldKind::Text(TextBased::SingleLineText) => "Text"@,
        FieldKind::Text(TextBased::LongText) => "Long Text"@,
        FieldKind::Text(TextBased::RichText) => "Long Text"@,
        FieldKind::Text(TextBased::Email) => "Email"@,
        FieldKind::Text(TextBased::Url) => "URL"@,
        FieldKind::Text(TextBased::PhoneNumber) => "Phone"@,
        FieldKind::Number(Numerical::Number) => "Number"@,
        FieldKind::Number(Numerical::Decimal { .. }) => "Decimal"@,
        FieldKind::Number(Numerical::Currency { .. }) => "Currency"@,
        FieldKind::Number(Numerical::Percent { .. }) => "Percent"@,
        FieldKind::Custom(CustomTypes::Rating { .. }) => "Rating"@,
        FieldKind::DateTime(_) => "Datetime"@,
        FieldKind::Select(SelectBased::SingleSelect { .. }) => "Select"@,
        FieldKind::Select(SelectBased::MultipleSelect { .. }) => "Select Multi"@,
        _ => "Text"@,
    }
}

/// The name under which the front end shows a field kind.
pub fn kind_name(kind: &FieldKind) -> (r: &'static str)
    ensures
        r@ == spec_kind_name(*kind),
{
    match kind {
        FieldKind::Text(TextBased::SingleLineText) => "Text",
        FieldKind::Text(TextBased::LongText) => "Long Text",
        FieldKind::Text(TextBased::RichText) => "Long Text",
        FieldKind::Text(TextBased::Email) => "Email",
        FieldKind::Text(TextBased::Url) => "URL",
        FieldKind::Text(TextBased::PhoneNumber) => "Phone",
        FieldKind::Number(Numerical::Number) => "Number",
        FieldKind::Number(Numerical::Decimal { .. }) => "Decimal",
        FieldKind::Number(Numerical::Currency { .. }) => "Currency",
        FieldKind::Number(Numerical::Percent { .. }) => "Percent",
        FieldKind::Custom(CustomTypes::Rating { .. }) => "Rating",
        FieldKind::DateTime(_) => "Datetime",
        FieldKind::Select(SelectBased::SingleSelect { .. }) => "Select",
        FieldKind::Select(SelectBased::MultipleSelect { .. }) => "Select Multi",
        _ => "Text",
    }
}

/// The kind of a new field created under the name `name`, with the settings
/// the front end gives it: 255 characters for text, two decimals for
/// decimals and percentages, US dollars for money, five stars for ratings,
/// ISO dates with a 24-hour time, no choices for selections.  An unknown
/// name gives a single-line text.
pub fn field_kind_from_name(name: &str) -> (k: FieldKind)
    ensures
        kind_names().contains(name@) ==> spec_kind_name(k) == name@,
        !kind_names().contains(name@) ==> k matches FieldKind::Text(TextBased::SingleLineText),
        name@ == "Text"@ ==> k matches FieldKind::Text(TextBased::SingleLineText),
        name@ == "Long Text"@ ==> k matches FieldKind::Text(TextBased::LongText),
        name@ == "Email"@ ==> k matches FieldKind::Text(TextBased::Email),
        name@ == "URL"@ ==> k matches FieldKind::Text(TextBased::Url),
        name@ == "Phone"@ ==> k matches FieldKind::Text(TextBased::PhoneNumber),
        name@ == "Number"@ ==> k matches FieldKind::Number(Numerical::Number),
        name@ == "Decimal"@ ==> (k matches FieldKind::Number(Numerical::Decimal { precision, scale })
            && precision == 2 && scale == 2),
        name@ == "Percent"@ ==> (k matches FieldKind::Number(Numerical::Percent { scale }) && scale == 2),
        name@ == "Currency"@ ==> (k matches FieldKind::Number(Numerical::Currency { currency })
            && currency@ == "USD"@),
        name@ == "Rating"@ ==> (k matches FieldKind::Custom(CustomTypes::Rating { icon, max })
            && icon == RatingIcon::Star && max == 5),
        name@ == "Datetime"@ ==> (k matches FieldKind::DateTime(DateTimeBased::DateTime { date, time })
            && date == DateFormat::ISO && time == TimeFormat::H24),
        name@ == "Select"@ ==> (k matches FieldKind::Select(SelectBased::SingleSelect { types })
            && types@.len() == 0),
        name@ == "Select Multi"@ ==> (k matches FieldKind::Select(SelectBased::MultipleSelect { types })
            && types@.len() == 0),
{
    proof {
        reveal_strlit("Text");
        reveal_strlit("Long Text");
        reveal_strlit("Email");
        reveal_strlit("URL");
        reveal_strlit("Phone");
        reveal_strlit("Number");
        reveal_strlit("Decimal");
        reveal_strlit("Currency");
        reveal_strlit("Percent");
        reveal_strlit("Rating");
        reveal_strlit("Datetime");
        reveal_strlit("Select");
        reveal_strlit("Select Multi");
        assert("Email"@[0] != "Phone"@[0]);
        assert("Number"@[0] != "Rating"@[0] && "Number"@[0] != "Select"@[0] && "Rating"@[0]
            != "Select"@[0]);
        assert("Decimal"@[0] != "Percent"@[0]);
        assert("Currency"@[0] != "Datetime"@[0]);
        assert("Percent"@ != "Decimal"@);
        assert("Percent"@ != "Currency"@);
        assert("Percent"@ != "Number"@);
        assert("Rating"@ != "Number"@);
        assert("Decimal"@ != "Number"@);
        assert("Percent"@[1] != "Phone"@[1]);
        assert("Datetime"@[1] != "Decimal"@[1]);
        assert("Long Text"@[0] != "Text"@[0]);
        assert("URL"@[0] != "Text"@[0] && "URL"@[0] != "Email"@[0]);
        assert("Select Multi"@.len() != "Select"@.len());
    }
    let ghost names = kind_names();
    if str_equal(name, "Text") {
        FieldKind::Text(TextBased::SingleLineText)
    } else if str_equal(name, "Long Text") {
        FieldKind::Text(TextBased::LongText)
    } else if str_equal(name, "Email") {
        FieldKind::Text(TextBased::Email)
    } else if str_equal(name, "URL") {
        FieldKind::Text(TextBased::Url)
    } else if str_equal(name, "Phone") {
        FieldKind::Text(TextBased::PhoneNumber)
    } else if str_equal(name, "Number") {
        FieldKind::Number(Numerical::Number)
    } else if str_equal(name, "Decimal") {
        FieldKind::Number(Numerical::Decimal { precision: 2, scale: 2 })
    } else if str_equal(name, "Currency") {
        FieldKind::Number(Numerical::Currency { currency: "USD".to_owned() })
    } else if str_equal(name, "Percent") {
        FieldKind::Number(Numerical::Percent { scale: 2 })
    } else if str_equal(name, "Rating") {
        FieldKind::Custom(CustomTypes::Rating { icon: RatingIcon::Star, max: 5 })
    } else if str_equal(name, "Datetime") {
        FieldKind::DateTime(DateTimeBased::DateTime { date: DateFormat::ISO, time: TimeFormat::H24 })
    } else if str_equal(name, "Select") {
        FieldKind::Select(SelectBased::SingleSelect { types: Vec::new() })
    } else if str_equal(name, "Select Multi") {
        FieldKind::Select(SelectBased::MultipleSelect { types: Vec::new() })
    } else {
        proof {
            assert(!names.contains(name@)) by {
                if names.contains(name@) {
                    let i = choose|i: int| 0 <= i < names.len() && names[i] == name@;
                    assert(false);
                }
            }
        }
        FieldKind::Text(TextBased::SingleLineText)
    }
}

/// `v` clamped into `lo..=hi`.
pub open spec fn clamped(v: int, lo: int, hi: int) -> int {
    if v < lo {
        lo
    } else if v > hi {
        hi
    } else {
        v
    }
}

/// The kind after the user types `text` into the maximum-rating box of a
/// rating field: a whole number is clamped to 1..=10 and becomes the
/// maximum; other text, and other kinds, leave the kind as it was.
pub fn with_rating_max(kind: FieldKind, text: &str) -> (k: FieldKind)
    ensures
        match (kind, parse_int(text@, false, 0, usize::MAX as int)) {
            (FieldKind::Custom(CustomTypes::Rating { icon, max: _ }), Some(m)) => k matches FieldKind::Custom(
                CustomTypes::Rating { icon: i, max: x },
            ) && i == icon && x as int == clamped(m, 1, 10),
            _ => k == kind,
        },
{
    match kind {
        FieldKind::Custom(CustomTypes::Rating { icon, max }) => match parse_usize(text) {
            Some(m) => {
                let x: u8 = if m < 1 {
                    1
                } else if m > 10 {
                    10
                } else {
                    m as u8
                };
                FieldKind::Custom(CustomTypes::Rating { icon, max: x })
            },
            None => FieldKind::Custom(CustomTypes::Rating { icon, max }),
        },
        other => other,
    }
}

/// The kind after the user types `text` into the precision box of a
/// decimal field: a number from 0 to 255 becomes the precision; other
/// text, and other kinds, leave the kind as it was.
pub fn with_decimal_precision(kind: FieldKind, text: &str) -> (k: FieldKind)
    ensures
        match (kind, parse_int(text@, false, 0, u8::MAX as int)) {
            (FieldKind::Number(Numerical::Decimal { precision: _, scale }), Some(p)) => k matches FieldKind::Number(
                Numerical::Decimal { precision: x, scale: s },
            ) && x as int == p && s == scale,
            _ => k == kind,
        },
{
    match kind {
        FieldKind::Number(Numerical::Decimal { precision, scale }) => match parse_u8(text) {
            Some(p) => FieldKind::Number(Numerical::Decimal { precision: p, scale }),
            None => FieldKind::Number(Numerical::Decimal { precision, scale }),
        },
        other => other,
    }
}

/// The HTML input type a cell of a field of kind `kind` is edited with.
pub open spec fn spec_input_type(kind: FieldKind) -> Seq<char> {
    match kind {
        FieldKind::Number(_) => "number"@,
        FieldKind::Custom(CustomTypes::Rating { .. }) => "number"@,
        FieldKind::DateTime(_) => "datetime-local"@,
        FieldKind::Text(TextBased::Email) => "email"@,
        FieldKind::Text(TextBased::Url) => "url"@,
        FieldKind::Text(TextBased::PhoneNumber) => "tel"@,
        _ => "text"@,
    }
}

/// The HTML input type a cell of a field of kind `kind` is edited with.
pub fn input_type(kind: &FieldKind) -> (r: &'static str)
    ensures
        r@ == spec_input_type(*kind),
{
    match kind {
        FieldKind::Number(_) => "number",
        FieldKind::Custom(CustomTypes::Rating { .. }) => "number",
        FieldKind::DateTime(_) => "datetime-local",
        FieldKind::Text(TextBased::Email) => "email",
        FieldKind::Text(TextBased::Url) => "url",
        FieldKind::Text(TextBased::PhoneNumber) => "tel",
        _ => "text",
    }
}

/// How a cell holding the text `v` is shown: empty stays empty, a
/// percentage gets a `%` after it, an amount of money without a `$` or
/// `€` gets `$ ` before it, anything else is shown as it is.
pub open spec fn spec_display_value(kind: FieldKind, v: Seq<char>) -> Seq<char> {
    if v.len() == 0 {
        v
    } else {
        match kind {
            FieldKind::Number(Numerical::Percent { .. }) => v + "%"@,
            FieldKind::Number(Numerical::Currency { .. }) => if v.contains('$') || v.contains('€') {
                v
            } else {
                "$ "@ + v
            },
            _ => v,
        }
    }
}

/// Does `v` contain the character `c`?
fn has_char(v: &str, c: char) -> (r: bool)
    ensures
        r == v@.contains(c),
{
    let x = chars_of(v);
    let mut i: usize = 0;
    while i < x.len()
        invariant
            x@ == v@,
            i <= x.len(),
            forall|j: int| 0 <= j < i ==> x@[j] != c,
        decreases x.len() - i,
    {
        if x[i] == c {
            return true;
        }
        i = i + 1;
    }
    false
}

/// How a cell of a field of kind `kind` holding the text `v` is shown.
pub fn display_value(kind: &FieldKind, v: &str) -> (r: String)
    ensures
        r@ == spec_display_value(*kind, v@),
        v@.len() == 0 ==> r@.len() == 0,
        (kind matches FieldKind::Number(Numerical::Percent { .. })) && v@.len() > 0 ==> r@ == v@
            + seq!['%'],
        (kind matches FieldKind::Number(Numerical::Currency { .. })) && v@.len() > 0 ==> (if v@.contains('$') || v@.contains('€') {
            r@ == v@
        } else {
            r@ == seq!['$', ' '] + v@
        }),
        !(kind matches FieldKind::Number(Numerical::Percent { .. })) && !(kind matches FieldKind::Number(
            Numerical::Currency { .. },
        )) ==> r@ == v@,
{
    proof {
        reveal_strlit("%");
        reveal_strlit("$ ");
        reveal_strlit("");
        assert("%"@ =~= seq!['%']);
        assert("$ "@ =~= seq!['$', ' ']);
    }
    if chars_of(v).len() == 0 {
        return "".to_owned();
    }
    match kind {
        FieldKind::Number(Numerical::Percent { .. }) => joined(v, "%"),
        FieldKind::Number(Numerical::Currency { .. }) => {
            if has_char(v, '$') || has_char(v, '€') {
                v.to_owned()
            } else {
                joined("$ ", v)
            }
        },
        _ => v.to_owned(),
    }
}

/// Only a percentage gets a `%` and only an amount of money gets a `$ `:
/// a cell of any other kind is shown exactly as it is, empty text is shown
/// empty, and a percentage is shown as its text followed by `%`.
pub proof fn lemma_display_marks_only_money_and_percent(kind: FieldKind, v: Seq<char>)
    ensures
        v.len() == 0 ==> spec_display_value(kind, v).len() == 0,
        !(kind matches FieldKind::Number(Numerical::Percent { .. })) && !(kind matches FieldKind::Number(
            Numerical::Currency { .. },
        )) ==> spec_display_value(kind, v) == v,
        (kind matches FieldKind::Number(Numerical::Percent { .. })) && v.len() > 0 ==> spec_display_value(kind, v)
            == v + seq!['%'],
        (kind matches FieldKind::Number(Numerical::Currency { .. })) && v.len() > 0 ==> spec_display_value(
            kind,
            v,
        ).len() >= v.len(),
{
    reveal_strlit("%");
    reveal_strlit("$ ");
    assert("%"@ =~= seq!['%']);
}

} // verus!
