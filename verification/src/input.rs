//! Turning the text a user typed into a cell into the cell's value, by the
//! kind of the field.
//!
//! Dates are read with the database's own date parser.  Reading a decimal
//! number is floating point and is done by the caller; its
//! outcomes come in as arguments.

use crate::cell::{
    currency_symbol, email_is_valid, opt_string_view, invalid_email_error, invalid_phone_error,
    invalid_url_error, lowercase, phone_parses, phone_valid, phone_e164_text, single_line_text, unparseable_phone_error,
    url_is_valid, both_none_error, CurrencyValue, DateValue, DecimalValue, Email,
    LongTextValue, NumberValue, PercentValue, PhoneValue, RatingValue, SingleLineValue, UrlValue,
    Value,
};
use crate::decimal::{parse_i32, parse_i64, parse_int, parse_u8, parse_usize};
use crate::field::{CustomTypes, FieldKind, Numerical, TextBased};
use crate::text::{chars_of, strip_markdown, trim, trim_bounds};
use crate::time::{datetime_reading, read_datetime};
use vstd::prelude::*;

verus! {

/// The length a single-line text field is created with.
pub const DEFAULT_MAX_LENGTH: u16 = 255;

/// Is the text empty once white space is trimmed?
pub open spec fn blank(value: Seq<char>) -> bool {
    trim(value).len() == 0
}

/// The value a single-line field keeps of `value`.
pub open spec fn single_line_of(value: Seq<char>) -> Seq<char> {
    single_line_text(None, DEFAULT_MAX_LENGTH as nat, Some(value))
}

/// What the input gives for a field kind that is kept as a single line.
pub open spec fn as_single_line(r: Result<Value, String>, value: Seq<char>) -> bool {
    r matches Ok(Value::SingleLine(v)) && v.value@ == single_line_of(value)
}

/// Is `r` the amount `n` in US dollars (written `$`, subunit `¢`)?
pub open spec fn is_dollar_amount(r: Result<Value, String>, n: int) -> bool {
    match r {
        Ok(Value::Currency(c)) => c.value == n && c.currency_symbole.symbol@ == seq!['$']
            && opt_string_view(c.currency_symbole.subunit_symbol) == Some(seq!['¢']),
        _ => false,
    }
}

/// Is `r` the error with the message `msg`?
pub open spec fn is_error(r: Result<Value, String>, msg: Seq<char>) -> bool {
    r matches Err(e) && e@ == msg
}

/// Is `value` empty or made of white space only?
fn is_blank(value: &String) -> (b: bool)
    ensures
        b == blank(value@),
{
    let v = chars_of(value.as_str());
    let (lo, hi) = trim_bounds(&v);
    lo == hi
}

/// The value of a cell of a field of kind `kind` from the text `value` that
/// a user typed.  `decimal` is the bits of the `f32` read from it (`None`
/// when it is not a number).
///
/// Text kinds build their value from the text (and may refuse it); numbers,
/// percentages, amounts of money and ratings are read as integers, and blank
/// text gives zero (for a plain number, which has no default, an error);
/// dates may not be blank; any other kind keeps the text as a single line.
pub fn cell_value_from_input(
    kind: &FieldKind,
    value: String,
    decimal: Option<u32>,
) -> (r: Result<Value, String>)
    ensures
        match *kind {
            FieldKind::Text(TextBased::Email) => {
                &&& email_is_valid(value@) ==> (r matches Ok(Value::Email(m)) && m.value@
                    == lowercase(trim(value@)))
                &&& !email_is_valid(value@) ==> is_error(r, invalid_email_error())
            },
            FieldKind::Text(TextBased::Url) => {
                &&& url_is_valid(value@) ==> (r matches Ok(Value::URL(u)) && u.value@ == trim(
                    value@,
                ))
                &&& !url_is_valid(value@) ==> is_error(r, invalid_url_error())
            },
            FieldKind::Text(TextBased::PhoneNumber) => {
                &&& !phone_parses(value@, None) <==> is_error(r, unparseable_phone_error())
                &&& phone_parses(value@, None) && !phone_valid(value@, None) ==> is_error(
                    r,
                    invalid_phone_error(),
                )
                &&& phone_parses(value@, None) && phone_valid(value@, None) ==> (r matches Ok(
                    Value::Phone(p),
                ) && p.value@ == phone_e164_text(value@, None))
            },
            FieldKind::Text(TextBased::LongText) => r matches Ok(Value::LongText(t)) && t.value@
                == trim(strip_markdown(value@)),
            FieldKind::Text(TextBased::RichText) => r matches Ok(Value::LongText(t)) && t.value@
                == trim(value@),
            FieldKind::Text(TextBased::SingleLineText) => as_single_line(r, value@),
            FieldKind::Number(Numerical::Number) => if blank(value@) {
                is_error(r, both_none_error())
            } else {
                match parse_int(value@, false, 0, usize::MAX as int) {
                    Some(n) => r matches Ok(Value::Number(x)) && x.value == n,
                    None => is_error(r, "Invalid number"@),
                }
            },
            FieldKind::Number(Numerical::Decimal { .. }) => if blank(value@) {
                is_error(r, both_none_error())
            } else {
                match decimal {
                    Some(b) => r matches Ok(Value::Decimal(d)) && d.bits == b,
                    None => is_error(r, "Invalid decimal"@),
                }
            },
            FieldKind::Number(Numerical::Percent { .. }) => if blank(value@) {
                r matches Ok(Value::Percent(p)) && p.value == 0
            } else {
                match parse_int(value@, true, i32::MIN as int, i32::MAX as int) {
                    Some(n) => r matches Ok(Value::Percent(p)) && p.value == n,
                    None => is_error(r, "Invalid percent"@),
                }
            },
            FieldKind::Number(Numerical::Currency { .. }) => {
                let amount = if blank(value@) {
                    Some(0int)
                } else {
                    parse_int(value@, true, i64::MIN as int, i64::MAX as int)
                };
                match amount {
                    Some(n) => is_dollar_amount(r, n),
                    None => is_error(r, "Invalid currency value"@),
                }
            },
            FieldKind::Custom(CustomTypes::Rating { max, .. }) => {
                let rating = if blank(value@) {
                    Some(0int)
                } else {
                    parse_int(value@, false, 0, u8::MAX as int)
                };
                match rating {
                    Some(n) => r matches Ok(Value::Rating(x)) && x.value == (if n > max {
                        max as int
                    } else {
                        n
                    }),
                    None => is_error(r, "Invalid rating"@),
                }
            },
            FieldKind::DateTime(_) => if blank(value@) {
                is_error(r, "Date cannot be empty"@)
            } else {
                match datetime_reading(value@) {
                    Some(d) => r matches Ok(Value::Date(x)) && x.value == d,
                    None => is_error(r, "Invalid date format"@),
                }
            },
            _ => as_single_line(r, value@),
        },
{
    match kind {
        FieldKind::Text(TextBased::Email) => match Email::new(value) {
            Ok(m) => Ok(Value::Email(m)),
            Err(e) => Err(e),
        },
        FieldKind::Text(TextBased::Url) => match UrlValue::new(value) {
            Ok(u) => Ok(Value::URL(u)),
            Err(e) => Err(e),
        },
        FieldKind::Text(TextBased::PhoneNumber) => match PhoneValue::new(value, None) {
            Ok(p) => Ok(Value::Phone(p)),
            Err(e) => Err(e),
        },
        FieldKind::Text(TextBased::LongText) => Ok(Value::LongText(LongTextValue::new(value, false))),
        FieldKind::Text(TextBased::RichText) => Ok(Value::LongText(LongTextValue::new(value, true))),
        FieldKind::Number(Numerical::Number) => {
            if is_blank(&value) {
                match NumberValue::new(None, None) {
                    Ok(n) => Ok(Value::Number(n)),
                    Err(e) => Err(e),
                }
            } else {
                match parse_usize(value.as_str()) {
                    Some(n) => match NumberValue::new(Some(n), None) {
                        Ok(x) => Ok(Value::Number(x)),
                        Err(e) => Err(e),
                    },
                    None => Err("Invalid number".to_owned()),
                }
            }
        },
        FieldKind::Number(Numerical::Decimal { .. }) => {
            if is_blank(&value) {
                match DecimalValue::new(None, None) {
                    Ok(d) => Ok(Value::Decimal(d)),
                    Err(e) => Err(e),
                }
            } else {
                match decimal {
                    Some(b) => match DecimalValue::new(Some(b), None) {
                        Ok(d) => Ok(Value::Decimal(d)),
                        Err(e) => Err(e),
                    },
                    None => Err("Invalid decimal".to_owned()),
                }
            }
        },
        FieldKind::Number(Numerical::Percent { .. }) => {
            if is_blank(&value) {
                Ok(Value::Percent(PercentValue::new(0)))
            } else {
                match parse_i32(value.as_str()) {
                    Some(n) => Ok(Value::Percent(PercentValue::new(n))),
                    None => Err("Invalid percent".to_owned()),
                }
            }
        },
        FieldKind::Number(Numerical::Currency { .. }) => {
            let amount = if is_blank(&value) {
                Some(0i64)
            } else {
                parse_i64(value.as_str())
            };
            match amount {
                Some(n) => {
                    proof {
                        reveal_strlit("USD");
                        assert("USD"@ =~= seq!['U', 'S', 'D']);
                    }
                    match currency_symbol("USD") {
                        Some(sym) => Ok(Value::Currency(CurrencyValue::new(n, sym))),
                        None => Err("Invalid currency value".to_owned()),
                    }
                },
                None => Err("Invalid currency value".to_owned()),
            }
        },
        FieldKind::Custom(CustomTypes::Rating { max, .. }) => {
            let rating = if is_blank(&value) {
                Some(0u8)
            } else {
                parse_u8(value.as_str())
            };
            match rating {
                Some(n) => Ok(Value::Rating(RatingValue::new(Some(n), *max))),
                None => Err("Invalid rating".to_owned()),
            }
        },
        FieldKind::DateTime(_) => {
            if is_blank(&value) {
                Err("Date cannot be empty".to_owned())
            } else {
                match read_datetime(value.as_str()) {
                    Some(d) => Ok(Value::Date(DateValue::new(Some(d)))),
                    None => Err("Invalid date format".to_owned()),
                }
            }
        },
        _ => Ok(Value::SingleLine(SingleLineValue::new(None, DEFAULT_MAX_LENGTH, Some(value)))),
    }
}

} // verus!
