//! Conversion of a DAQ reading into time-series points: one point per value,
//! named after the value's id and name, with a field `value` typed after the
//! value's description.

use vstd::prelude::*;
use vstd::string::*;

use crate::daq::{DaqData, DaqValue, DataType, JsonNumber, JsonValue};
use crate::text::{append_decimal, decimal};

verus! {

/// Whether `c` has the Unicode `White_Space` property, which is what the
/// regular expression class `\s` matches.
pub open spec fn is_white_space(c: char) -> bool {
    ||| ('\t' <= c && c <= '\r')
    ||| c == ' '
    ||| c == '\u{85}'
    ||| c == '\u{a0}'
    ||| c == '\u{1680}'
    ||| ('\u{2000}' <= c && c <= '\u{200a}')
    ||| c == '\u{2028}'
    ||| c == '\u{2029}'
    ||| c == '\u{202f}'
    ||| c == '\u{205f}'
    ||| c == '\u{3000}'
}

/// The text of the regular expression that matches one run of white space.
pub open spec fn white_space_run_pattern() -> Seq<char> {
    seq!['\\', 's', '+']
}

/// `s` with every maximal run of white space replaced by `rep`; `in_run`
/// tells whether the character before `s` was white space that has already
/// been replaced.
pub open spec fn replace_runs_from(s: Seq<char>, rep: Seq<char>, in_run: bool) -> Seq<char>
    decreases s.len(),
{
    if s.len() == 0 {
        Seq::empty()
    } else if is_white_space(s[0]) {
        (if in_run {
            Seq::empty()
        } else {
            rep
        }) + replace_runs_from(s.drop_first(), rep, true)
    } else {
        seq![s[0]] + replace_runs_from(s.drop_first(), rep, false)
    }
}

/// `s` with every maximal run of white space replaced by `rep`.
pub open spec fn replace_white_space_runs(s: Seq<char>, rep: Seq<char>) -> Seq<char> {
    replace_runs_from(s, rep, false)
}

/// Whether no character of `s` is white space.
pub open spec fn has_no_white_space(s: Seq<char>) -> bool {
    forall|i: int| 0 <= i < s.len() ==> !is_white_space(#[trigger] s[i])
}

/// Replacing the runs of white space by a text without white space leaves no
/// white space behind.
pub proof fn lemma_replace_runs_no_white_space(s: Seq<char>, rep: Seq<char>, in_run: bool)
    requires
        has_no_white_space(rep),
    ensures
        has_no_white_space(replace_runs_from(s, rep, in_run)),
    decreases s.len(),
{
    if s.len() > 0 {
        let next = !is_white_space(s[0]);
        lemma_replace_runs_no_white_space(s.drop_first(), rep, !next);
        let tail = replace_runs_from(s.drop_first(), rep, !next);
        let head: Seq<char> = if next {
            seq![s[0]]
        } else if in_run {
            Seq::empty()
        } else {
            rep
        };
        assert(replace_runs_from(s, rep, in_run) =~= head + tail);
        assert forall|i: int| 0 <= i < (head + tail).len() implies !is_white_space(
            #[trigger] (head + tail)[i],
        ) by {
            if i >= head.len() {
                assert((head + tail)[i] == tail[i - head.len()]);
            }
        }
    }
}

/// A text without white space is left as it is.
pub proof fn lemma_replace_runs_identity(s: Seq<char>, rep: Seq<char>, in_run: bool)
    requires
        has_no_white_space(s),
    ensures
        replace_runs_from(s, rep, in_run) == s,
    decreases s.len(),
{
    if s.len() > 0 {
        assert(!is_white_space(s[0]));
        assert(has_no_white_space(s.drop_first())) by {
            assert forall|i: int| 0 <= i < s.drop_first().len() implies !is_white_space(
                #[trigger] s.drop_first()[i],
            ) by {
                assert(s.drop_first()[i] == s[i + 1]);
            }
        }
        lemma_replace_runs_identity(s.drop_first(), rep, false);
        assert(seq![s[0]] + s.drop_first() =~= s);
    }
}

/// Replacing the runs of white space by a dash gives a text without white
/// space, and a text without white space is left as it is.
pub proof fn lemma_dash_white_space(s: Seq<char>)
    ensures
        has_no_white_space(replace_white_space_runs(s, seq!['-'])),
        has_no_white_space(s) ==> replace_white_space_runs(s, seq!['-']) == s,
{
    lemma_replace_runs_no_white_space(s, seq!['-'], false);
    if has_no_white_space(s) {
        lemma_replace_runs_identity(s, seq!['-'], false);
    }
}

/// What `regex::Regex::new(pattern)` followed by `replace_all(haystack,
/// replacement)` gives: `None` where the pattern does not compile.
pub uninterp spec fn regex_replace_all_result(
    pattern: Seq<char>,
    haystack: Seq<char>,
    replacement: Seq<char>,
) -> Option<Seq<char>>;

/// What `str::to_lowercase` gives for `s`.
pub uninterp spec fn str_to_lowercase(s: Seq<char>) -> Seq<char>;

/// Compiles `pattern` with `regex::Regex::new` and replaces every match in
/// `haystack` with `replacement` by `regex::Regex::replace_all`.
/// Trusted: the result is the named result for these arguments (`None` where
/// the pattern does not compile); for the pattern `\s+` (which compiles) and
/// a replacement without `$` (so taken literally), the regex crate's
/// leftmost, greedy, non-overlapping matching of `\s` (Unicode White_Space)
/// replaces each maximal run of white space by the replacement. Nothing is
/// claimed of other patterns.
#[verifier::external_body]
fn regex_replace_all(pattern: &str, haystack: &str, replacement: &str) -> (r: Option<String>)
    ensures
        r is Some ==> regex_replace_all_result(pattern@, haystack@, replacement@) == Some(r->0@),
        r is None ==> regex_replace_all_result(pattern@, haystack@, replacement@) is None,
        pattern@ == white_space_run_pattern() && !replacement@.contains('$') ==> r is Some
            && r->0@ == replace_white_space_runs(haystack@, replacement@),
{
    match regex::Regex::new(pattern) {
        Ok(re) => Some(re.replace_all(haystack, replacement).into_owned()),
        Err(_) => None,
    }
}

/// Lowercases `s` with `str::to_lowercase`.
/// Trusted: the result is the named result `str_to_lowercase(s@)`; Unicode
/// lowercasing is not restated here.
#[verifier::external_body]
fn lowercase(s: &str) -> (r: String)
    ensures
        r@ == str_to_lowercase(s@),
{
    s.to_lowercase()
}

/// The name of the point for the value with `id` and `name`: the decimal id,
/// an underscore and the name, lowercased, with every run of white space
/// replaced by a dash.
pub open spec fn spec_measurement_name(id: u32, name: Seq<char>) -> Seq<char> {
    replace_white_space_runs(str_to_lowercase(decimal(id as nat) + seq!['_'] + name), seq!['-'])
}

/// Replaces every maximal run of white space in `s` by a dash.
pub fn dash_white_space(s: &str) -> (r: String)
    ensures
        r@ == replace_white_space_runs(s@, seq!['-']),
{
    let pattern = "\\s+";
    let dash = "-";
    proof {
        reveal_strlit("\\s+");
        reveal_strlit("-");
        assert(pattern@ =~= white_space_run_pattern());
        assert(dash@ =~= seq!['-']);
        assert(!dash@.contains('$')) by {
            if dash@.contains('$') {
                let k = choose|k: int| 0 <= k < dash@.len() && dash@[k] == '$';
                assert(k == 0);
            }
        }
    }
    match regex_replace_all(pattern, s, dash) {
        Some(r) => r,
        None => {
            proof { assert(false); }
            String::new()
        },
    }
}

/// The name of the point for the value with `id` and `name`.
pub fn measurement_name(id: u32, name: &str) -> (r: String)
    ensures
        r@ == spec_measurement_name(id, name@),
{
    let mut s = String::new();
    append_decimal(&mut s, id as u128);
    s.append("_");
    s.append(name);
    proof {
        reveal_strlit("_");
        assert(s@ =~= decimal(id as nat) + seq!['_'] + name@);
    }
    let lower = lowercase(s.as_str());
    dash_white_space(lower.as_str())
}

/// The name of a point holds no white space.
pub proof fn lemma_measurement_name_has_no_white_space(id: u32, name: Seq<char>)
    ensures
        has_no_white_space(spec_measurement_name(id, name)),
{
    lemma_dash_white_space(str_to_lowercase(decimal(id as nat) + seq!['_'] + name));
}

/// The value of a point's field.
#[derive(Debug, Clone, PartialEq)]
pub enum FieldValue {
    Bool(bool),
    Int(i64),
    /// A float field, given by the JSON number it is read from (a number
    /// read as a float the way the JSON reader reads it: integers converted,
    /// floats taken as they are).
    Float(JsonNumber),
    Str(String),
}

/// The mathematical content of a `FieldValue`.
pub enum FieldValueView {
    Bool(bool),
    Int(i64),
    Float(JsonNumber),
    Str(Seq<char>),
}

impl View for FieldValue {
    type V = FieldValueView;

    open spec fn view(&self) -> FieldValueView {
        match self {
            FieldValue::Bool(b) => FieldValueView::Bool(*b),
            FieldValue::Int(i) => FieldValueView::Int(*i),
            FieldValue::Float(n) => FieldValueView::Float(*n),
            FieldValue::Str(s) => FieldValueView::Str(s@),
        }
    }
}

/// The field value of a raw value read as `typ`: where the raw value is not
/// of that type, `false`, `0`, `0.0` (the number zero) or the empty string.
pub open spec fn spec_field_value(typ: DataType, v: JsonValue) -> FieldValueView {
    match typ {
        DataType::Boolean => FieldValueView::Bool(
            match v.spec_as_bool() {
                Some(b) => b,
                None => false,
            },
        ),
        DataType::Integer => FieldValueView::Int(
            match v.spec_as_i64() {
                Some(i) => i,
                None => 0,
            },
        ),
        DataType::Float => FieldValueView::Float(
            match v.spec_as_number() {
                Some(n) => n,
                None => JsonNumber::PosInt(0),
            },
        ),
        DataType::String => FieldValueView::Str(
            match v.spec_as_str() {
                Some(s) => s,
                None => Seq::empty(),
            },
        ),
    }
}

/// A raw value of the described kind is kept as it is: a boolean as that
/// boolean, an integer that fits in 64 signed bits as that integer, any
/// number as that number for a float, a string as its text.
pub proof fn lemma_field_value_keeps_matching_values(b: bool, n: JsonNumber, s: String)
    ensures
        spec_field_value(DataType::Boolean, JsonValue::Bool(b)) == FieldValueView::Bool(b),
        n.spec_as_i64() matches Some(i) ==> spec_field_value(DataType::Integer, JsonValue::Number(n))
            == FieldValueView::Int(i),
        spec_field_value(DataType::Float, JsonValue::Number(n)) == FieldValueView::Float(n),
        spec_field_value(DataType::String, JsonValue::String(s)) == FieldValueView::Str(s@),
{
}

/// A raw value of another kind than described gives the type's zero:
/// `false`, `0`, the number zero, the empty text.
pub proof fn lemma_field_value_defaults(v: JsonValue)
    ensures
        !(v is Bool) ==> spec_field_value(DataType::Boolean, v) == FieldValueView::Bool(false),
        !(v is Number) ==> spec_field_value(DataType::Integer, v) == FieldValueView::Int(0),
        !(v is Number) ==> spec_field_value(DataType::Float, v) == FieldValueView::Float(
            JsonNumber::PosInt(0),
        ),
        !(v is String) ==> spec_field_value(DataType::String, v) == FieldValueView::Str(
            Seq::empty(),
        ),
{
}

/// An integer number reads as itself: a non-negative one that fits in 64
/// signed bits, and every negative one; a float never does.
pub proof fn lemma_number_as_i64(u: u64, i: i64, bits: u64)
    ensures
        u <= 9223372036854775807 ==> JsonNumber::PosInt(u).spec_as_i64() == Some(u as i64),
        u > 9223372036854775807 ==> JsonNumber::PosInt(u).spec_as_i64() is None,
        JsonNumber::NegInt(i).spec_as_i64() == Some(i),
        JsonNumber::Float(bits).spec_as_i64() is None,
{
}

/// The field value of `v` read as `typ`.
pub fn field_value(typ: DataType, v: &JsonValue) -> (r: FieldValue)
    ensures
        r@ == spec_field_value(typ, *v),
{
    match typ {
        DataType::Boolean => FieldValue::Bool(
            match v.as_bool() {
                Some(b) => b,
                None => false,
            },
        ),
        DataType::Integer => FieldValue::Int(
            match v.as_i64() {
                Some(i) => i,
                None => 0,
            },
        ),
        DataType::Float => FieldValue::Float(
            match v.as_number() {
                Some(n) => n,
                None => JsonNumber::PosInt(0),
            },
        ),
        DataType::String => FieldValue::Str(
            match v.as_str() {
                Some(s) => s.to_string(),
                None => String::new(),
            },
        ),
    }
}

/// One time-series point: a measurement with a single field.
#[derive(Debug, Clone, PartialEq)]
pub struct MeasurementPoint {
    pub measurement: String,
    pub field: String,
    pub value: FieldValue,
}

/// Whether `p` is the point for the DAQ value `v`.
pub open spec fn is_point_of(p: MeasurementPoint, v: DaqValue) -> bool {
    &&& p.measurement@ == spec_measurement_name(v.description.id, v.description.name@)
    &&& p.field@ == "value"@
    &&& p.value@ == spec_field_value(v.description.typ, v.value)
}

/// Every point carries its value in the field named `value`.
pub proof fn lemma_point_field_name(p: MeasurementPoint, v: DaqValue)
    requires
        is_point_of(p, v),
    ensures
        p.field@ == seq!['v', 'a', 'l', 'u', 'e'],
{
    reveal_strlit("value");
}

/// The point for one DAQ value.
pub fn daq_value_to_point(v: &DaqValue) -> (r: MeasurementPoint)
    ensures
        is_point_of(r, *v),
{
    let measurement = measurement_name(v.description.id, v.description.name.as_str());
    let value = field_value(v.description.typ, &v.value);
    MeasurementPoint { measurement, field: "value".to_string(), value }
}

/// One point per DAQ value, in the order of the values.
pub fn daq_data_to_points(daq: DaqData) -> (r: Vec<MeasurementPoint>)
    ensures
        r@.len() == daq.values@.len(),
        forall|i: int| 0 <= i < r@.len() ==> is_point_of(#[trigger] r@[i], daq.values@[i]),
{
    let mut points: Vec<MeasurementPoint> = Vec::new();
    let n = daq.values.len();
    let mut i: usize = 0;
    while i < n
        invariant
            n == daq.values@.len(),
            i <= n,
            points@.len() == i,
            forall|j: int| 0 <= j < i ==> is_point_of(#[trigger] points@[j], daq.values@[j]),
        decreases n - i,
    {
        let p = daq_value_to_point(&daq.values[i]);
        points.push(p);
        i = i + 1;
    }
    points
}

} // verus!
