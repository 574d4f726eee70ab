//! Cell values: what a record holds in one field, one type per field kind.
//!
//! Each constructor normalises its input the way the field kind asks
//! (trimming, flattening lines, clamping, validating) or refuses it.

use crate::decimal::{i64_text, int_text};
use crate::field::{AggregateFunction, LinkType};
use crate::ids::{CellId, FieldId, RecordId, TableId};
use crate::text::{
    chars_of, flatten_lines, flatten_prefix, string_of, strip_markdown, strip_markdown_chars,
    trim, trim_bounds, trimmed,
};
use crate::time::{now, Datetime, Duration};
use std::fmt::Write;
use vstd::prelude::*;

verus! {

/// A stored cell: its key, when it was made and last changed, and its value.
#[derive(Debug, PartialEq, Eq, Hash)]
pub struct CellValue {
    pub id: CellId,
    pub created_at: Datetime,
    pub updated_at: Datetime,
    pub value: Value,
}

/// The value of a cell, by field kind.
#[derive(Debug, PartialEq, Eq, Hash)]
pub enum Value {
    SingleLine(SingleLineValue),
    LongText(LongTextValue),
    Email(Email),
    URL(UrlValue),
    Phone(PhoneValue),
    Number(NumberValue),
    Decimal(DecimalValue),
    Currency(CurrencyValue),
    Percent(PercentValue),
    Rating(RatingValue),
    Date(DateValue),
    Duration(DurationValue),
    Link(LinkValue),
    LookUp(LookUpValue),
    RollUp(RollUpValue),
}

/// A copy of `s`.
fn copy_string(s: &String) -> (r: String)
    ensures
        r == *s,
{
    s.clone()
}

/// A copy of `v`.
fn copy_record_ids(v: &Vec<RecordId>) -> (r: Vec<RecordId>)
    ensures
        r@ == v@,
{
    let mut r: Vec<RecordId> = Vec::new();
    let mut i: usize = 0;
    while i < v.len()
        invariant
            i <= v.len(),
            r@ == v@.take(i as int),
        decreases v.len() - i,
    {
        r.push(RecordId(copy_string(&v[i].0)));
        assert(r@ =~= v@.take(i + 1));
        i = i + 1;
    }
    assert(v@.take(v.len() as int) =~= v@);
    r
}

/// `a` and `b` hold the same value: equal, except that the records of a
/// link are compared by their sequence of keys.
pub open spec fn values_match(a: Value, b: Value) -> bool
    decreases a,
{
    match (a, b) {
        (Value::Link(x), Value::Link(y)) => x.target_table_id == y.target_table_id
            && x.link_type == y.link_type && x.record_ids@ == y.record_ids@,
        (Value::LookUp(x), Value::LookUp(y)) => x.link_field_id == y.link_field_id
            && x.target_field_id == y.target_field_id && values_match(
            *x.computed_values,
            *y.computed_values,
        ),
        (Value::RollUp(x), Value::RollUp(y)) => x.link_field_id == y.link_field_id
            && x.target_field_id == y.target_field_id && x.function == y.function
            && values_match(*x.computed_values, *y.computed_values),
        _ => a == b,
    }
}

impl Value {
    /// A copy of this value.
    pub fn duplicate(&self) -> (r: Value)
        ensures
            values_match(r, *self),
        decreases self,
    {
        match self {
            Value::SingleLine(v) => Value::SingleLine(SingleLineValue { value: copy_string(&v.value) }),
            Value::LongText(v) => Value::LongText(LongTextValue { value: copy_string(&v.value) }),
            Value::Email(v) => Value::Email(Email { value: copy_string(&v.value) }),
            Value::URL(v) => Value::URL(UrlValue { value: copy_string(&v.value) }),
            Value::Phone(v) => Value::Phone(PhoneValue { value: copy_string(&v.value) }),
            Value::Number(v) => Value::Number(NumberValue { value: v.value }),
            Value::Decimal(v) => Value::Decimal(DecimalValue { bits: v.bits }),
            Value::Currency(v) => Value::Currency(
                CurrencyValue {
                    value: v.value,
                    currency_symbole: CurrencySymbol {
                        symbol: copy_string(&v.currency_symbole.symbol),
                        subunit_symbol: match &v.currency_symbole.subunit_symbol {
                            Some(s) => Some(copy_string(s)),
                            None => None,
                        },
                    },
                },
            ),
            Value::Percent(v) => Value::Percent(PercentValue { value: v.value }),
            Value::Rating(v) => Value::Rating(RatingValue { value: v.value }),
            Value::Date(v) => Value::Date(DateValue { value: v.value }),
            Value::Duration(v) => Value::Duration(DurationValue { value: v.value }),
            Value::Link(v) => Value::Link(
                LinkValue {
                    target_table_id: TableId(copy_string(&v.target_table_id.0)),
                    record_ids: copy_record_ids(&v.record_ids),
                    link_type: v.link_type,
                },
            ),
            Value::LookUp(v) => Value::LookUp(
                LookUpValue {
                    link_field_id: FieldId(copy_string(&v.link_field_id.0)),
                    target_field_id: FieldId(copy_string(&v.target_field_id.0)),
                    computed_values: Box::new((&*v.computed_values).duplicate()),
                },
            ),
            Value::RollUp(v) => Value::RollUp(
                RollUpValue {
                    link_field_id: FieldId(copy_string(&v.link_field_id.0)),
                    target_field_id: FieldId(copy_string(&v.target_field_id.0)),
                    function: v.function,
                    computed_values: Box::new((&*v.computed_values).duplicate()),
                },
            ),
        }
    }
}

/// A value folded by a roll-up field from the records a link field points to.
#[derive(Debug, PartialEq, Eq, Hash)]
pub struct RollUpValue {
    pub link_field_id: FieldId,
    pub target_field_id: FieldId,
    pub function: AggregateFunction,
    pub computed_values: Box<Value>,
}

impl RollUpValue {
    /// A roll-up of `target_field_id` through `link_field_id`, folded with
    /// `function` into `computed_values`.
    pub fn new(
        link_field_id: FieldId,
        target_field_id: FieldId,
        function: AggregateFunction,
        computed_values: Value,
    ) -> (r: Self)
        ensures
            r.link_field_id == link_field_id,
            r.target_field_id == target_field_id,
            r.function == function,
            *r.computed_values == computed_values,
    {
        RollUpValue { link_field_id, target_field_id, function, computed_values: Box::new(computed_values) }
    }

    /// The folded value.
    pub fn value(&self) -> (r: Value)
        ensures
            values_match(r, *self.computed_values),
    {
        (&*self.computed_values).duplicate()
    }

    /// The folding function.
    pub fn function(&self) -> (r: AggregateFunction)
        ensures
            r == self.function,
    {
        self.function
    }

    /// The field that is folded.
    pub fn target_field_id(&self) -> (r: FieldId)
        ensures
            r == self.target_field_id,
    {
        FieldId(copy_string(&self.target_field_id.0))
    }

    /// The link field the folded records are reached through.
    pub fn link_field_id(&self) -> (r: FieldId)
        ensures
            r == self.link_field_id,
    {
        FieldId(copy_string(&self.link_field_id.0))
    }
}

/// Values of a field of the records a link field points to.
#[derive(Debug, PartialEq, Eq, Hash)]
pub struct LookUpValue {
    pub link_field_id: FieldId,
    pub target_field_id: FieldId,
    pub computed_values: Box<Value>,
}

impl LookUpValue {
    /// A look-up of `target_field_id` through `link_field_id`, holding
    /// `computed_values`.
    pub fn new(link_field_id: FieldId, target_field_id: FieldId, computed_values: Value) -> (r: Self)
        ensures
            r.link_field_id == link_field_id,
            r.target_field_id == target_field_id,
            *r.computed_values == computed_values,
    {
        LookUpValue { link_field_id, target_field_id, computed_values: Box::new(computed_values) }
    }

    /// The link field the records are reached through.
    pub fn link_field_id(&self) -> (r: FieldId)
        ensures
            r == self.link_field_id,
    {
        FieldId(copy_string(&self.link_field_id.0))
    }

    /// The field that is looked up.
    pub fn target_field_id(&self) -> (r: FieldId)
        ensures
            r == self.target_field_id,
    {
        FieldId(copy_string(&self.target_field_id.0))
    }

    /// The looked-up values.
    pub fn value(&self) -> (r: Value)
        ensures
            values_match(r, *self.computed_values),
    {
        (&*self.computed_values).duplicate()
    }
}

/// Records of another table that a record points to.
#[derive(Debug, Clone, PartialEq, Eq, Hash)]
pub struct LinkValue {
    pub target_table_id: TableId,
    pub record_ids: Vec<RecordId>,
    pub link_type: LinkType,
}

/// The records a link of type `link_type` keeps from `ids`: a one-to-one
/// link keeps only the first.
pub open spec fn kept_links(link_type: LinkType, ids: Seq<RecordId>) -> Seq<RecordId> {
    if link_type == LinkType::OneToOne && ids.len() > 1 {
        ids.take(1)
    } else {
        ids
    }
}

impl LinkValue {
    /// A link to `record_ids` (none when absent) of `target_table_id`; a
    /// one-to-one link keeps only the first record.
    pub fn new(target_table_id: TableId, link_type: LinkType, record_ids: Option<Vec<RecordId>>) -> (r: Self)
        ensures
            r.target_table_id == target_table_id,
            r.link_type == link_type,
            r.record_ids@ == kept_links(
                link_type,
                match record_ids {
                    Some(v) => v@,
                    None => Seq::empty(),
                },
            ),
    {
        let mut ids = match record_ids {
            Some(v) => v,
            None => Vec::new(),
        };
        if link_type == LinkType::OneToOne && ids.len() > 1 {
            ids.truncate(1);
        }
        LinkValue { target_table_id, link_type, record_ids: ids }
    }

    /// The records linked to.
    pub fn record_ids(&self) -> (r: &[RecordId])
        ensures
            r@ == self.record_ids@,
    {
        self.record_ids.as_slice()
    }
}

/// A length of time.
#[derive(Debug, Clone, PartialEq, Eq, Hash)]
pub struct DurationValue {
    pub value: Duration,
}

impl DurationValue {
    /// The given duration, or zero when absent.
    pub fn new(value: Option<Duration>) -> (r: Self)
        ensures
            r.value == (match value {
                Some(v) => v,
                None => Duration { secs: 0, nanos: 0 },
            }),
    {
        match value {
            Some(v) => DurationValue { value: v },
            None => DurationValue { value: Duration::new(0, 0) },
        }
    }

    /// The duration.
    pub fn value(&self) -> (r: Duration)
        ensures
            r == self.value,
    {
        self.value
    }
}

/// A point in time.
#[derive(Debug, Clone, PartialEq, Eq, Hash)]
pub struct DateValue {
    pub value: Datetime,
}

impl DateValue {
    /// The given time, or the current time when absent.
    pub fn new(value: Option<Datetime>) -> (r: Self)
        ensures
            value matches Some(v) ==> r.value == v,
            value is None ==> r.value.secs >= 0 && r.value.nanos < 1_000_000_000,
    {
        match value {
            Some(v) => DateValue { value: v },
            None => DateValue { value: now() },
        }
    }
}

/// A rating between zero and the field's maximum.
#[derive(Debug, Clone, PartialEq, Eq, Hash)]
pub struct RatingValue {
    pub value: u8,
}

impl RatingValue {
    /// The given rating (zero when absent), capped at `max`.
    pub fn new(value: Option<u8>, max: u8) -> (r: Self)
        ensures
            r.value <= max,
            r.value == ({
                let v = match value {
                    Some(v) => v,
                    None => 0u8,
                };
                if v > max {
                    max
                } else {
                    v
                }
            }),
    {
        let mut ratings: u8 = match value {
            Some(v) => v,
            None => 0,
        };
        if ratings > max {
            ratings = max;
        }
        RatingValue { value: ratings }
    }
}

/// A percentage.
#[derive(Debug, Clone, PartialEq, Eq, Hash)]
pub struct PercentValue {
    pub value: i32,
}

impl PercentValue {
    /// The percentage `value`.
    pub fn new(value: i32) -> (r: Self)
        ensures
            r.value == value,
    {
        PercentValue { value }
    }

    /// The percentage.
    pub fn value(&self) -> (r: i32)
        ensures
            r == self.value,
    {
        self.value
    }
}

/// How a currency is written: its symbol and the symbol of its subunit.
#[derive(Debug, Clone, PartialEq, Eq, Hash)]
pub struct CurrencySymbol {
    pub symbol: String,
    pub subunit_symbol: Option<String>,
}

/// The symbol and subunit symbol that `iso_currency` lists for the currency
/// with the ISO 4217 letter code `code`, or `None` when it lists no such
/// currency.
pub uninterp spec fn iso_currency_symbol(code: Seq<char>) -> Option<(Seq<char>, Option<Seq<char>>)>;

/// The plain view of a currency's symbols.
pub open spec fn symbol_view(s: Option<CurrencySymbol>) -> Option<(Seq<char>, Option<Seq<char>>)> {
    match s {
        Some(c) => Some((c.symbol@, opt_string_view(c.subunit_symbol))),
        None => None,
    }
}

/// The symbol of a currency, from `iso_currency::Currency::from_code`
/// followed by `Currency::symbol`.  The contract names the result; beside
/// the name it states what the crate's data table lists for the US dollar
/// (`USD`): the symbol `$` and the subunit symbol `¢`.
#[verifier::external_body]
pub(crate) fn currency_symbol(code: &str) -> (r: Option<CurrencySymbol>)
    ensures
        symbol_view(r) == iso_currency_symbol(code@),
        code@ == seq!['U', 'S', 'D'] ==> symbol_view(r) == Some((seq!['$'], Some(seq!['¢']))),
{
    match iso_currency::Currency::from_code(code) {
        Some(c) => {
            let s = c.symbol();
            Some(CurrencySymbol { symbol: s.symbol, subunit_symbol: s.subunit_symbol })
        },
        None => None,
    }
}

/// An amount of money, in whole units, with the currency's symbol.
#[derive(Debug, Clone, PartialEq, Eq, Hash)]
pub struct CurrencyValue {
    pub value: i64,
    pub currency_symbole: CurrencySymbol,
}

impl CurrencyValue {
    /// The amount `value` in the currency written `currency_symbole`.
    pub fn new(value: i64, currency_symbole: CurrencySymbol) -> (r: Self)
        ensures
            r.value == value,
            r.currency_symbole == currency_symbole,
    {
        CurrencyValue { value, currency_symbole }
    }

    /// The amount.
    pub fn value_as_int(&self) -> (r: i64)
        ensures
            r == self.value,
    {
        self.value
    }

    /// The amount in decimal, a space, and the currency's symbol.
    pub fn value_as_str(&self) -> (r: String)
        ensures
            r@ == int_text(self.value as int) + seq![' '] + self.currency_symbole.symbol@,
    {
        let mut v = i64_text(self.value);
        v.push(' ');
        let sym = chars_of(self.currency_symbole.symbol.as_str());
        let mut i: usize = 0;
        let ghost start = v@;
        while i < sym.len()
            invariant
                i <= sym.len(),
                v@ == start + sym@.take(i as int),
            decreases sym.len() - i,
        {
            v.push(sym[i]);
            assert(start + sym@.take(i + 1) =~= (start + sym@.take(i as int)).push(sym@[i as int]));
            i = i + 1;
        }
        assert(sym@.take(sym.len() as int) =~= sym@);
        string_of(&v)
    }
}

/// A decimal number, held as the IEEE 754 bits of an `f32`.
#[derive(Debug, Clone, PartialEq, Eq, Hash)]
pub struct DecimalValue {
    pub bits: u32,
}

/// The error returned when neither a value nor a default is given.
pub open spec fn both_none_error() -> Seq<char> {
    "BOTH_VALUES_ARE_NONE"@
}

impl DecimalValue {
    /// The given number, or the default when it is absent; an error when
    /// both are absent.
    pub fn new(value: Option<u32>, default: Option<u32>) -> (r: Result<Self, String>)
        ensures
            match (value, default) {
                (Some(v), _) => r matches Ok(d) && d.bits == v,
                (None, Some(d)) => r matches Ok(x) && x.bits == d,
                (None, None) => r matches Err(e) && e@ == both_none_error(),
            },
    {
        match value {
            Some(v) => Ok(DecimalValue { bits: v }),
            None => match default {
                Some(d) => Ok(DecimalValue { bits: d }),
                None => Err("BOTH_VALUES_ARE_NONE".to_owned()),
            },
        }
    }

    /// The bits of the number.
    pub fn value(&self) -> (r: u32)
        ensures
            r == self.bits,
    {
        self.bits
    }
}

/// A whole number.
#[derive(Debug, Clone, PartialEq, Eq, Hash)]
pub struct NumberValue {
    pub value: usize,
}

impl NumberValue {
    /// The given number, or the default when it is absent; an error when
    /// both are absent.
    pub fn new(value: Option<usize>, default: Option<usize>) -> (r: Result<Self, String>)
        ensures
            match (value, default) {
                (Some(v), _) => r matches Ok(n) && n.value == v,
                (None, Some(d)) => r matches Ok(n) && n.value == d,
                (None, None) => r matches Err(e) && e@ == both_none_error(),
            },
    {
        match value {
            Some(v) => Ok(NumberValue { value: v }),
            None => match default {
                Some(d) => Ok(NumberValue { value: d }),
                None => Err("BOTH_VALUES_ARE_NONE".to_owned()),
            },
        }
    }

    /// The number.
    pub fn value(&self) -> (r: &usize)
        ensures
            *r == self.value,
    {
        &self.value
    }
}

/// Does `phonenumber::parse` read a phone number from `value`, with the
/// default region named by the code `region` when that code is known?
pub uninterp spec fn phone_parses(value: Seq<char>, region: Option<Seq<char>>) -> bool;

/// Does `phonenumber::is_valid` accept the number that `phonenumber::parse`
/// reads from `value` with the default region `region`?
pub uninterp spec fn phone_valid(value: Seq<char>, region: Option<Seq<char>>) -> bool;

/// The E.164 text (`PhoneNumber::format().mode(Mode::E164)`) of the number
/// that `phonenumber::parse` reads from `value` with the default region
/// `region`.
pub uninterp spec fn phone_e164_text(value: Seq<char>, region: Option<Seq<char>>) -> Seq<char>;

/// Is `s` in E.164 form: a `+` followed by at least one ASCII digit and
/// nothing else?
pub open spec fn is_e164(s: Seq<char>) -> bool {
    &&& s.len() >= 2
    &&& s[0] == '+'
    &&& forall|i: int| 1 <= i < s.len() ==> '0' <= #[trigger] s[i] <= '9'
}

/// The view of an optional string slice.
pub open spec fn opt_view(s: Option<&str>) -> Option<Seq<char>> {
    match s {
        Some(x) => Some(x@),
        None => None,
    }
}

/// Whether `phonenumber::parse` reads a number from `value`, after turning
/// the region code into a `phonenumber::country::Id` (an unknown code gives
/// no default region).  The contract names the answer.  The crate's own
/// regression tests cover the published panics of its parser on crafted
/// input; the contract assumes the parser returns.
#[verifier::external_body]
fn phone_reads(value: &str, region: Option<&str>) -> (r: bool)
    ensures
        r == phone_parses(value@, opt_view(region)),
{
    let country: Option<phonenumber::country::Id> = match region {
        Some(c) => c.parse().ok(),
        None => None,
    };
    phonenumber::parse(country, value).is_ok()
}

/// `phonenumber::is_valid` on the number that `phonenumber::parse` reads
/// from `value` with the default region `region`; `false` when nothing is
/// read.  The contract names the answer, and states that a valid number was
/// read.
#[verifier::external_body]
fn phone_is_valid(value: &str, region: Option<&str>) -> (r: bool)
    ensures
        r == phone_valid(value@, opt_view(region)),
        r ==> phone_parses(value@, opt_view(region)),
{
    let country: Option<phonenumber::country::Id> = match region {
        Some(c) => c.parse().ok(),
        None => None,
    };
    match phonenumber::parse(country, value) {
        Ok(n) => phonenumber::is_valid(&n),
        Err(_) => false,
    }
}

/// The E.164 text of the number that `phonenumber::parse` reads from
/// `value` with the default region `region`, written with
/// `PhoneNumber::format().mode(Mode::E164)`; `None` when nothing is read or
/// the formatter reports an error.  The contract names the text and states
/// what the crate's formatter writes in E.164 mode: `+`, the country code
/// and the national number, all in decimal digits.  The formatter fails
/// only when no metadata is listed for the country code; a valid number was
/// found in the metadata by that code (`validator::source_for` and the
/// database index both countries and regions by the same code), so a valid
/// number gives its text.
#[verifier::external_body]
fn phone_e164(value: &str, region: Option<&str>) -> (r: Option<String>)
    ensures
        r matches Some(s) ==> s@ == phone_e164_text(value@, opt_view(region)) && is_e164(s@),
        phone_valid(value@, opt_view(region)) ==> r is Some,
{
    let country: Option<phonenumber::country::Id> = match region {
        Some(c) => c.parse().ok(),
        None => None,
    };
    match phonenumber::parse(country, value) {
        Ok(n) => {
            let mut s = String::new();
            match write!(s, "{}", n.format().mode(phonenumber::Mode::E164)) {
                Ok(()) => Some(s),
                Err(_) => None,
            }
        },
        Err(_) => None,
    }
}

/// The error returned for a phone number that was read but is not valid.
pub open spec fn invalid_phone_error() -> Seq<char> {
    "INVALID_PHONE_NUMBER"@
}

/// The error returned for text that is not a phone number.
pub open spec fn unparseable_phone_error() -> Seq<char> {
    "UNPARSEABLE_PHONE_NUMBER"@
}

/// A phone number in E.164 form.
#[derive(Debug, Clone, PartialEq, Eq, Hash)]
pub struct PhoneValue {
    pub value: String,
}

impl PhoneValue {
    /// Reads `value` as a phone number, with `default_region` (a region
    /// code) for numbers written without a country code.  Text that is not
    /// a phone number is refused as unparseable, a number that is not valid
    /// as invalid; a valid number is kept in E.164 form.
    pub fn new(value: String, default_region: Option<&str>) -> (r: Result<Self, String>)
        ensures
            !phone_parses(value@, opt_view(default_region)) <==> (r matches Err(e) && e@
                == unparseable_phone_error()),
            phone_parses(value@, opt_view(default_region)) && !phone_valid(
                value@,
                opt_view(default_region),
            ) ==> (r matches Err(e) && e@ == invalid_phone_error()),
            phone_parses(value@, opt_view(default_region)) && phone_valid(
                value@,
                opt_view(default_region),
            ) ==> (r matches Ok(p) && p.value@
                == phone_e164_text(value@, opt_view(default_region)) && is_e164(p.value@)),
    {
        proof {
            reveal_strlit("INVALID_PHONE_NUMBER");
            reveal_strlit("UNPARSEABLE_PHONE_NUMBER");
            assert(invalid_phone_error()[0] != unparseable_phone_error()[0]);
        }
        if !phone_reads(value.as_str(), default_region) {
            return Err("UNPARSEABLE_PHONE_NUMBER".to_owned());
        }
        if !phone_is_valid(value.as_str(), default_region) {
            return Err("INVALID_PHONE_NUMBER".to_owned());
        }
        match phone_e164(value.as_str(), default_region) {
            Some(formatted) => Ok(PhoneValue { value: formatted }),
            None => Err("INVALID_PHONE_NUMBER".to_owned()),
        }
    }

    /// The number in E.164 form.
    pub fn value(&self) -> (r: &str)
        ensures
            r@ == self.value@,
    {
        self.value.as_str()
    }
}

/// Is `value` a URL that the `url` crate can parse?
pub uninterp spec fn url_is_valid(value: Seq<char>) -> bool;

/// `validator::ValidateUrl::validate_url` on a string; the contract names
/// its result.
#[verifier::external_body]
fn validate_url(value: &str) -> (r: bool)
    ensures
        r == url_is_valid(value@),
{
    validator::ValidateUrl::validate_url(&value)
}

/// The error returned for text that is not a URL.
pub open spec fn invalid_url_error() -> Seq<char> {
    "INVALID_URL_FORMAT"@
}

/// A URL.
#[derive(Debug, Clone, PartialEq, Eq, Hash)]
pub struct UrlValue {
    pub value: String,
}

impl UrlValue {
    /// `value` without surrounding white space, when it is a URL.
    pub fn new(value: String) -> (r: Result<Self, String>)
        ensures
            url_is_valid(value@) ==> (r matches Ok(u) && u.value@ == trim(value@)),
            !url_is_valid(value@) ==> (r matches Err(e) && e@ == invalid_url_error()),
    {
        if validate_url(value.as_str()) {
            Ok(UrlValue { value: trimmed(value.as_str()) })
        } else {
            Err("INVALID_URL_FORMAT".to_owned())
        }
    }

    /// The URL.
    pub fn value(&self) -> (r: &str)
        ensures
            r@ == self.value@,
    {
        self.value.as_str()
    }
}

/// Is `value` an e-mail address by the HTML5 rules that `validator` checks?
pub uninterp spec fn email_is_valid(value: Seq<char>) -> bool;

/// `validator::ValidateEmail::validate_email` on a string.  The contract
/// names its result and states what the crate's source checks first: the
/// empty string and a string without `@` are refused.
#[verifier::external_body]
fn validate_email(value: &str) -> (r: bool)
    ensures
        r == email_is_valid(value@),
        (value@.len() == 0 || !value@.contains('@')) ==> !r,
{
    validator::ValidateEmail::validate_email(&value)
}

/// The lower-case form of `s` by the Unicode `Lowercase` mapping.
pub uninterp spec fn lowercase(s: Seq<char>) -> Seq<char>;

/// `str::to_lowercase`; the contract names its result.
#[verifier::external_body]
fn to_lowercase(s: &str) -> (r: String)
    ensures
        r@ == lowercase(s@),
{
    s.to_lowercase()
}

/// The error returned for text that is not an e-mail address.
pub open spec fn invalid_email_error() -> Seq<char> {
    "INVALID_EMAIL_FORMAT"@
}

/// An e-mail address.
#[derive(Debug, Clone, PartialEq, Eq, Hash)]
pub struct Email {
    pub value: String,
}

impl Email {
    /// `value` without surrounding white space and in lower case, when it
    /// is an e-mail address.
    pub fn new(value: String) -> (r: Result<Self, String>)
        ensures
            email_is_valid(value@) ==> (r matches Ok(m) && m.value@ == lowercase(trim(value@))),
            !email_is_valid(value@) ==> (r matches Err(e) && e@ == invalid_email_error()),
    {
        if validate_email(value.as_str()) {
            let t = trimmed(value.as_str());
            Ok(Email { value: to_lowercase(t.as_str()) })
        } else {
            Err("INVALID_EMAIL_FORMAT".to_owned())
        }
    }

    /// The address.
    pub fn value(&self) -> (r: &str)
        ensures
            r@ == self.value@,
    {
        self.value.as_str()
    }
}

/// A long text.
#[derive(Debug, Clone, PartialEq, Eq, Hash)]
pub struct LongTextValue {
    pub value: String,
}

impl LongTextValue {
    /// `value` without surrounding white space; unless it is rich text, its
    /// markdown markers are removed first.
    pub fn new(value: String, rich_text: bool) -> (r: Self)
        ensures
            rich_text ==> r.value@ == trim(value@),
            !rich_text ==> r.value@ == trim(strip_markdown(value@)),
    {
        if rich_text {
            LongTextValue { value: trimmed(value.as_str()) }
        } else {
            let v = chars_of(value.as_str());
            let stripped = strip_markdown_chars(&v);
            let (lo, hi) = trim_bounds(&stripped);
            LongTextValue { value: crate::text::string_of_range(&stripped, lo, hi) }
        }
    }
}

/// The text a single-line field keeps: the value, else the default, else
/// nothing; with line breaks made spaces, cut to `max_length` characters
/// and without surrounding white space.
pub open spec fn single_line_text(default: Option<Seq<char>>, max_length: nat, value: Option<Seq<char>>) -> Seq<char> {
    let raw = match value {
        Some(v) => v,
        None => match default {
            Some(d) => d,
            None => Seq::empty(),
        },
    };
    let flat = flatten_lines(raw);
    trim(flat.take(if max_length < flat.len() { max_length as int } else { flat.len() as int }))
}

/// The view of an optional string.
pub open spec fn opt_string_view(s: Option<String>) -> Option<Seq<char>> {
    match s {
        Some(x) => Some(x@),
        None => None,
    }
}

/// A single line of text.
#[derive(Debug, Clone, PartialEq, Eq, Hash)]
pub struct SingleLineValue {
    pub value: String,
}

impl SingleLineValue {
    /// The value (else the default, else the empty text) on one line, at
    /// most `max_length` characters long, without surrounding white space.
    pub fn new(default: Option<String>, max_length: u16, value: Option<String>) -> (r: Self)
        ensures
            r.value@ == single_line_text(opt_string_view(default), max_length as nat, opt_string_view(value)),
    {
        let raw = match value {
            Some(v) => v,
            None => match default {
                Some(d) => d,
                None => String::new(),
            },
        };
        let v = chars_of(raw.as_str());
        let flat = flatten_prefix(&v, max_length as usize);
        let (lo, hi) = trim_bounds(&flat);
        let ghost n = if (max_length as nat) < v@.len() { max_length as int } else { v@.len() as int };
        assert(flatten_lines(v@.take(n)) =~= flatten_lines(v@).take(n));
        SingleLineValue { value: crate::text::string_of_range(&flat, lo, hi) }
    }
}

/// What a single-line field keeps has no line break, is at most
/// `max_length` characters long and has no surrounding white space.
pub proof fn lemma_single_line_clean(default: Option<Seq<char>>, max_length: nat, value: Option<Seq<char>>)
    ensures
        single_line_text(default, max_length, value).len() <= max_length,
        forall|i: int|
            0 <= i < single_line_text(default, max_length, value).len() ==> {
                let c = #[trigger] single_line_text(default, max_length, value)[i];
                c != '\n' && c != '\r'
            },
        trim(single_line_text(default, max_length, value)) == single_line_text(default, max_length, value),
{
    let raw = match value {
        Some(v) => v,
        None => match default {
            Some(d) => d,
            None => Seq::empty(),
        },
    };
    let flat = flatten_lines(raw);
    let cut = flat.take(if max_length < flat.len() { max_length as int } else { flat.len() as int });
    let (a, b) = crate::text::lemma_trim_subrange(cut);
    let t = single_line_text(default, max_length, value);
    assert(t == cut.subrange(a, b));
    assert forall|i: int| 0 <= i < t.len() implies t[i] != '\n' && t[i] != '\r' by {
        assert(t[i] == cut[a + i]);
        assert(cut[a + i] == flat[a + i]);
        assert(flat[a + i] == crate::text::flatten_char(raw[a + i]));
    }
    crate::text::lemma_trim_idempotent(cut);
}

/// The plain form of a long text has no markdown marker and no surrounding
/// white space.
pub proof fn lemma_long_text_plain_clean(value: Seq<char>)
    ensures
        forall|i: int|
            0 <= i < trim(strip_markdown(value)).len() ==> !crate::text::is_markdown_marker(
                #[trigger] trim(strip_markdown(value))[i],
            ),
        trim(trim(strip_markdown(value))) == trim(strip_markdown(value)),
{
    let m = strip_markdown(value);
    crate::text::lemma_strip_markdown_clean(value);
    let (a, b) = crate::text::lemma_trim_subrange(m);
    assert forall|i: int| 0 <= i < trim(m).len() implies !crate::text::is_markdown_marker(
        trim(m)[i],
    ) by {
        assert(trim(m)[i] == m[a + i]);
    }
    crate::text::lemma_trim_idempotent(m);
}

/// A one-to-one link keeps at most one record.
pub proof fn lemma_one_to_one_keeps_at_most_one(ids: Seq<RecordId>)
    ensures
        kept_links(LinkType::OneToOne, ids).len() <= 1,
{
}

/// A link that is not one-to-one keeps every record it was given.
pub proof fn lemma_many_link_keeps_all(link_type: LinkType, ids: Seq<RecordId>)
    requires
        link_type != LinkType::OneToOne,
    ensures
        kept_links(link_type, ids) == ids,
{
}

} // verus!
