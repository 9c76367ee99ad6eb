//! The data acquisition (DAQ) model of a Guntamatic device: the description
//! list (`daqdesc.cgi`), the raw value list (`daqdata.cgi`) and their pairing.

use vstd::prelude::*;
use vstd::string::*;

use vstd::std_specs::cmp::PartialEqSpecImpl;

use crate::text::str_eq;

verus! {

/// The type that a description gives to a DAQ value.
#[derive(Debug, Clone, Copy, PartialEq, Eq, Structural)]
pub enum DataType {
    Float,
    Integer,
    Boolean,
    String,
}

/// The unit of a DAQ value.
#[derive(Debug, Clone, Copy, PartialEq, Eq, Structural)]
pub enum Unit {
    DegreeCelsius,
    Percent,
    Days,
    Hours,
    CubicMeter,
}

/// A name that names none of an enum's variants, with the names that were
/// expected in its place.
#[derive(Debug, Clone, PartialEq)]
pub struct UnknownVariant {
    pub value: String,
    pub expected: Vec<&'static str>,
}

impl DataType {
    /// The name under which the device reports the type.
    pub open spec fn spec_name(self) -> Seq<char> {
        match self {
            DataType::Float => "float"@,
            DataType::Integer => "integer"@,
            DataType::Boolean => "boolean"@,
            DataType::String => "string"@,
        }
    }

    /// The type reported under `name`, if any.
    pub open spec fn spec_from_name(name: Seq<char>) -> Option<DataType> {
        if name == "float"@ {
            Some(DataType::Float)
        } else if name == "integer"@ {
            Some(DataType::Integer)
        } else if name == "boolean"@ {
            Some(DataType::Boolean)
        } else if name == "string"@ {
            Some(DataType::String)
        } else {
            None
        }
    }

    /// The names of all types, in declaration order.
    pub open spec fn spec_names() -> Seq<Seq<char>> {
        seq!["float"@, "integer"@, "boolean"@, "string"@]
    }

    /// Reads a type from its name; any other name is an unknown variant.
    pub fn from_name(name: &str) -> (r: Result<DataType, UnknownVariant>)
        ensures
            match r {
                Ok(t) => DataType::spec_from_name(name@) == Some(t),
                Err(e) => {
                    &&& DataType::spec_from_name(name@) is None
                    &&& e.value@ == name@
                    &&& e.expected@.len() == 4
                    &&& forall|i: int|
                        0 <= i < 4 ==> #[trigger] e.expected@[i]@ == DataType::spec_names()[i]
                },
            },
    {
        if str_eq(name, "float") {
            Ok(DataType::Float)
        } else if str_eq(name, "integer") {
            Ok(DataType::Integer)
        } else if str_eq(name, "boolean") {
            Ok(DataType::Boolean)
        } else if str_eq(name, "string") {
            Ok(DataType::String)
        } else {
            let mut expected: Vec<&'static str> = Vec::new();
            expected.push("float");
            expected.push("integer");
            expected.push("boolean");
            expected.push("string");
            Err(UnknownVariant { value: name.to_string(), expected })
        }
    }
}

impl Unit {
    /// The symbol under which the device reports the unit.
    pub open spec fn spec_symbol(self) -> Seq<char> {
        match self {
            Unit::DegreeCelsius => "\u{b0}C"@,
            Unit::Percent => "%"@,
            Unit::Days => "d"@,
            Unit::Hours => "h"@,
            Unit::CubicMeter => "m3"@,
        }
    }

    /// The unit reported under `symbol`, if any.
    pub open spec fn spec_from_symbol(symbol: Seq<char>) -> Option<Unit> {
        if symbol == "\u{b0}C"@ {
            Some(Unit::DegreeCelsius)
        } else if symbol == "%"@ {
            Some(Unit::Percent)
        } else if symbol == "d"@ {
            Some(Unit::Days)
        } else if symbol == "h"@ {
            Some(Unit::Hours)
        } else if symbol == "m3"@ {
            Some(Unit::CubicMeter)
        } else {
            None
        }
    }

    /// The symbols of all units, in declaration order.
    pub open spec fn spec_symbols() -> Seq<Seq<char>> {
        seq!["\u{b0}C"@, "%"@, "d"@, "h"@, "m3"@]
    }

    /// The unit's symbol.
    pub fn to_string(&self) -> (r: String)
        ensures
            r@ == self.spec_symbol(),
    {
        let s: &str = match self {
            Unit::DegreeCelsius => "\u{b0}C",
            Unit::Percent => "%",
            Unit::Days => "d",
            Unit::Hours => "h",
            Unit::CubicMeter => "m3",
        };
        s.to_string()
    }

    /// Reads a unit from its symbol; any other symbol is an unknown variant.
    pub fn from_symbol(symbol: &str) -> (r: Result<Unit, UnknownVariant>)
        ensures
            match r {
                Ok(u) => Unit::spec_from_symbol(symbol@) == Some(u),
                Err(e) => {
                    &&& Unit::spec_from_symbol(symbol@) is None
                    &&& e.value@ == symbol@
                    &&& e.expected@.len() == 5
                    &&& forall|i: int|
                        0 <= i < 5 ==> #[trigger] e.expected@[i]@ == Unit::spec_symbols()[i]
                },
            },
    {
        if str_eq(symbol, "\u{b0}C") {
            Ok(Unit::DegreeCelsius)
        } else if str_eq(symbol, "%") {
            Ok(Unit::Percent)
        } else if str_eq(symbol, "d") {
            Ok(Unit::Days)
        } else if str_eq(symbol, "h") {
            Ok(Unit::Hours)
        } else if str_eq(symbol, "m3") {
            Ok(Unit::CubicMeter)
        } else {
            let mut expected: Vec<&'static str> = Vec::new();
            expected.push("\u{b0}C");
            expected.push("%");
            expected.push("d");
            expected.push("h");
            expected.push("m3");
            Err(UnknownVariant { value: symbol.to_string(), expected })
        }
    }
}

/// Every type is read back from its own name, and a name that is read as a
/// type is that type's name.
pub proof fn lemma_data_type_name_roundtrip(t: DataType, name: Seq<char>)
    ensures
        DataType::spec_from_name(t.spec_name()) == Some(t),
        DataType::spec_from_name(name) == Some(t) ==> t.spec_name() == name,
{
    reveal_strlit("float");
    reveal_strlit("integer");
    reveal_strlit("boolean");
    reveal_strlit("string");
    assert("float"@[0] == 'f' && "integer"@[0] == 'i' && "boolean"@[0] == 'b' && "string"@[0] == 's');
}

/// The device's type names are read as: `float` Float, `integer` Integer,
/// `boolean` Boolean, `string` String; each type is reported under its name.
pub proof fn lemma_data_type_name_table()
    ensures
        DataType::spec_from_name(seq!['f', 'l', 'o', 'a', 't']) == Some(DataType::Float),
        DataType::spec_from_name(seq!['i', 'n', 't', 'e', 'g', 'e', 'r']) == Some(DataType::Integer),
        DataType::spec_from_name(seq!['b', 'o', 'o', 'l', 'e', 'a', 'n']) == Some(DataType::Boolean),
        DataType::spec_from_name(seq!['s', 't', 'r', 'i', 'n', 'g']) == Some(DataType::String),
        DataType::Float.spec_name() == seq!['f', 'l', 'o', 'a', 't'],
        DataType::Integer.spec_name() == seq!['i', 'n', 't', 'e', 'g', 'e', 'r'],
        DataType::Boolean.spec_name() == seq!['b', 'o', 'o', 'l', 'e', 'a', 'n'],
        DataType::String.spec_name() == seq!['s', 't', 'r', 'i', 'n', 'g'],
{
    reveal_strlit("float");
    reveal_strlit("integer");
    reveal_strlit("boolean");
    reveal_strlit("string");
    assert("float"@ =~= seq!['f', 'l', 'o', 'a', 't']);
    assert("integer"@ =~= seq!['i', 'n', 't', 'e', 'g', 'e', 'r']);
    assert("boolean"@ =~= seq!['b', 'o', 'o', 'l', 'e', 'a', 'n']);
    assert("string"@ =~= seq!['s', 't', 'r', 'i', 'n', 'g']);
}

/// The device's unit symbols are read as: `°C` degrees Celsius, `%` percent,
/// `d` days, `h` hours, `m3` cubic meters; each unit is written as its symbol.
pub proof fn lemma_unit_symbol_table()
    ensures
        Unit::spec_from_symbol(seq!['\u{b0}', 'C']) == Some(Unit::DegreeCelsius),
        Unit::spec_from_symbol(seq!['%']) == Some(Unit::Percent),
        Unit::spec_from_symbol(seq!['d']) == Some(Unit::Days),
        Unit::spec_from_symbol(seq!['h']) == Some(Unit::Hours),
        Unit::spec_from_symbol(seq!['m', '3']) == Some(Unit::CubicMeter),
        Unit::DegreeCelsius.spec_symbol() == seq!['\u{b0}', 'C'],
        Unit::Percent.spec_symbol() == seq!['%'],
        Unit::Days.spec_symbol() == seq!['d'],
        Unit::Hours.spec_symbol() == seq!['h'],
        Unit::CubicMeter.spec_symbol() == seq!['m', '3'],
{
    reveal_strlit("\u{b0}C");
    reveal_strlit("%");
    reveal_strlit("d");
    reveal_strlit("h");
    reveal_strlit("m3");
    assert("\u{b0}C"@ =~= seq!['\u{b0}', 'C']);
    assert("%"@ =~= seq!['%']);
    assert("d"@ =~= seq!['d']);
    assert("h"@ =~= seq!['h']);
    assert("m3"@ =~= seq!['m', '3']);
    assert(seq!['d'] != seq!['%']) by {
        assert(seq!['d'][0] != seq!['%'][0]);
    }
    assert(seq!['h'] != seq!['%']) by {
        assert(seq!['h'][0] != seq!['%'][0]);
    }
    assert(seq!['h'] != seq!['d']) by {
        assert(seq!['h'][0] != seq!['d'][0]);
    }
}

/// An unknown name is answered with the names of all types, and an unknown
/// symbol with the symbols of all units, in declaration order.
pub proof fn lemma_expected_names()
    ensures
        DataType::spec_names() == seq![
            DataType::Float.spec_name(),
            DataType::Integer.spec_name(),
            DataType::Boolean.spec_name(),
            DataType::String.spec_name(),
        ],
        Unit::spec_symbols() == seq![
            Unit::DegreeCelsius.spec_symbol(),
            Unit::Percent.spec_symbol(),
            Unit::Days.spec_symbol(),
            Unit::Hours.spec_symbol(),
            Unit::CubicMeter.spec_symbol(),
        ],
{
}

/// Every unit is read back from its own symbol, and a symbol that is read as
/// a unit is that unit's symbol.
pub proof fn lemma_unit_symbol_roundtrip(u: Unit, symbol: Seq<char>)
    ensures
        Unit::spec_from_symbol(u.spec_symbol()) == Some(u),
        Unit::spec_from_symbol(symbol) == Some(u) ==> u.spec_symbol() == symbol,
{
    reveal_strlit("\u{b0}C");
    reveal_strlit("%");
    reveal_strlit("d");
    reveal_strlit("h");
    reveal_strlit("m3");
    assert("\u{b0}C"@[0] == '\u{b0}' && "%"@[0] == '%' && "d"@[0] == 'd' && "h"@[0] == 'h' && "m3"@[0] == 'm');
}

/// The description of one DAQ value.
#[derive(Debug, Clone, PartialEq)]
pub struct DaqDescription {
    pub id: u32,
    pub name: String,
    pub typ: DataType,
    pub unit: Option<Unit>,
}

/// The list that `daqdesc.cgi` answers with.
#[derive(Debug, Clone, PartialEq)]
pub struct DaqDescriptionList {
    pub list: Vec<DaqDescription>,
}

/// A JSON number as the device's JSON reader keeps it: a non-negative
/// integer, a negative integer, or a finite float given by its IEEE-754 bits.
/// Two numbers are equal when they are of the same kind and, for floats, equal
/// as floats (so `0.0` equals `-0.0`).
#[derive(Debug, Clone, Copy)]
pub enum JsonNumber {
    PosInt(u64),
    NegInt(i64),
    Float(u64),
}

/// A JSON value as read from `daqdata.cgi`.
#[derive(Debug, PartialEq)]
pub enum JsonValue {
    Null,
    Bool(bool),
    Number(JsonNumber),
    String(String),
    Array(Vec<JsonValue>),
    Object(Vec<(String, JsonValue)>),
}

/// The list that `daqdata.cgi` answers with.
#[derive(Debug, Clone, PartialEq)]
pub struct RawData {
    pub data: Vec<JsonValue>,
}

/// A DAQ value together with its description.
#[derive(Debug, Clone, PartialEq)]
pub struct DaqValue {
    pub value: JsonValue,
    pub description: DaqDescription,
}

/// All DAQ values of one reading.
#[derive(Debug, Clone, PartialEq)]
pub struct DaqData {
    pub values: Vec<DaqValue>,
}

/// Whether the IEEE-754 bits `a` encode a NaN.
pub open spec fn is_nan_bits(a: u64) -> bool {
    a & 0x7ff0_0000_0000_0000u64 == 0x7ff0_0000_0000_0000u64 && a & 0x000f_ffff_ffff_ffffu64 != 0
}

/// Whether the floats with IEEE-754 bits `a` and `b` are equal as floats:
/// neither is NaN, and they are the same or both are zero.
pub open spec fn float_bits_eq(a: u64, b: u64) -> bool {
    &&& !is_nan_bits(a)
    &&& !is_nan_bits(b)
    &&& (a == b || (a & 0x7fff_ffff_ffff_ffffu64 == 0 && b & 0x7fff_ffff_ffff_ffffu64 == 0))
}

impl PartialEq for JsonNumber {
    fn eq(&self, other: &JsonNumber) -> (r: bool) {
        match (self, other) {
            (JsonNumber::PosInt(a), JsonNumber::PosInt(b)) => *a == *b,
            (JsonNumber::NegInt(a), JsonNumber::NegInt(b)) => *a == *b,
            (JsonNumber::Float(a), JsonNumber::Float(b)) => {
                let a = *a;
                let b = *b;
                let a_nan = a & 0x7ff0_0000_0000_0000u64 == 0x7ff0_0000_0000_0000u64 && a
                    & 0x000f_ffff_ffff_ffffu64 != 0;
                let b_nan = b & 0x7ff0_0000_0000_0000u64 == 0x7ff0_0000_0000_0000u64 && b
                    & 0x000f_ffff_ffff_ffffu64 != 0;
                !a_nan && !b_nan && (a == b || (a & 0x7fff_ffff_ffff_ffffu64 == 0 && b
                    & 0x7fff_ffff_ffff_ffffu64 == 0))
            },
            _ => false,
        }
    }
}

impl PartialEqSpecImpl for JsonNumber {
    open spec fn obeys_eq_spec() -> bool {
        true
    }

    open spec fn eq_spec(&self, other: &JsonNumber) -> bool {
        match (*self, *other) {
            (JsonNumber::PosInt(a), JsonNumber::PosInt(b)) => a == b,
            (JsonNumber::NegInt(a), JsonNumber::NegInt(b)) => a == b,
            (JsonNumber::Float(a), JsonNumber::Float(b)) => float_bits_eq(a, b),
            _ => false,
        }
    }
}

impl JsonNumber {
    /// The number as a signed 64-bit integer, if it is an integer in range.
    pub open spec fn spec_as_i64(self) -> Option<i64> {
        match self {
            JsonNumber::PosInt(n) => if n <= i64::MAX as u64 {
                Some(n as i64)
            } else {
                None
            },
            JsonNumber::NegInt(n) => Some(n),
            JsonNumber::Float(_) => None,
        }
    }

    /// The number as a signed 64-bit integer, if it is an integer in range.
    pub fn as_i64(&self) -> (r: Option<i64>)
        ensures
            r == self.spec_as_i64(),
    {
        match self {
            JsonNumber::PosInt(n) => if *n <= 9223372036854775807u64 {
                Some(*n as i64)
            } else {
                None
            },
            JsonNumber::NegInt(n) => Some(*n),
            JsonNumber::Float(_) => None,
        }
    }
}

/// Whether two JSON values hold the same content: the same kind, equal
/// scalars, the same text, and elements (and keys) that hold the same
/// content, position by position.
pub open spec fn json_same(a: JsonValue, b: JsonValue) -> bool
    decreases a,
{
    match a {
        JsonValue::Null => b is Null,
        JsonValue::Bool(x) => b matches JsonValue::Bool(y) && x == y,
        JsonValue::Number(x) => b matches JsonValue::Number(y) && x == y,
        JsonValue::String(x) => b matches JsonValue::String(y) && x@ == y@,
        JsonValue::Array(x) => b matches JsonValue::Array(y) && x@.len() == y@.len() && forall|i: int|
            0 <= i < x@.len() ==> json_same(#[trigger] x@[i], y@[i]),
        JsonValue::Object(x) => b matches JsonValue::Object(y) && x@.len() == y@.len() && forall|
            i: int,
        |
            0 <= i < x@.len() ==> (#[trigger] x@[i]).0@ == y@[i].0@ && json_same(x@[i].1, y@[i].1),
    }
}

impl Clone for JsonValue {
    /// A copy of the value, element by element, holding the same content.
    fn clone(&self) -> (r: JsonValue)
        ensures
            json_same(*self, r),
        decreases self,
    {
        match self {
            JsonValue::Null => JsonValue::Null,
            JsonValue::Bool(b) => JsonValue::Bool(*b),
            JsonValue::Number(n) => JsonValue::Number(*n),
            JsonValue::String(s) => JsonValue::String(s.clone()),
            JsonValue::Array(items) => {
                let mut copy: Vec<JsonValue> = Vec::new();
                let mut i: usize = 0;
                while i < items.len()
                    invariant
                        i <= items@.len(),
                        copy@.len() == i,
                        *self == JsonValue::Array(*items),
                        forall|j: int| 0 <= j < i ==> json_same(#[trigger] items@[j], copy@[j]),
                    decreases items@.len() - i,
                {
                    proof {
                        assert(decreases_to!(*self => self->Array_0));
                        assert(decreases_to!(*items => items@));
                        assert(decreases_to!(items@ => items@[i as int]));
                    }
                    copy.push(items[i].clone());
                    i = i + 1;
                }
                JsonValue::Array(copy)
            },
            JsonValue::Object(entries) => {
                let mut copy: Vec<(String, JsonValue)> = Vec::new();
                let mut i: usize = 0;
                while i < entries.len()
                    invariant
                        i <= entries@.len(),
                        copy@.len() == i,
                        *self == JsonValue::Object(*entries),
                        forall|j: int|
                            0 <= j < i ==> (#[trigger] entries@[j]).0@ == copy@[j].0@ && json_same(
                                entries@[j].1,
                                copy@[j].1,
                            ),
                    decreases entries@.len() - i,
                {
                    proof {
                        assert(decreases_to!(*self => self->Object_0));
                        assert(decreases_to!(*entries => entries@));
                        assert(decreases_to!(entries@ => entries@[i as int]));
                        assert(decreases_to!(entries@[i as int] => entries@[i as int].1));
                    }
                    let (k, v) = &entries[i];
                    copy.push((k.clone(), v.clone()));
                    i = i + 1;
                }
                JsonValue::Object(copy)
            },
        }
    }
}

impl JsonValue {
    /// The boolean held by the value, if it is one.
    pub open spec fn spec_as_bool(&self) -> Option<bool> {
        match self {
            JsonValue::Bool(b) => Some(*b),
            _ => None,
        }
    }

    /// The number held by the value, if it is one.
    pub open spec fn spec_as_number(&self) -> Option<JsonNumber> {
        match self {
            JsonValue::Number(n) => Some(*n),
            _ => None,
        }
    }

    /// The value as a signed 64-bit integer, if it is an integer number in range.
    pub open spec fn spec_as_i64(&self) -> Option<i64> {
        match self {
            JsonValue::Number(n) => n.spec_as_i64(),
            _ => None,
        }
    }

    /// The characters of the string held by the value, if it is one.
    pub open spec fn spec_as_str(&self) -> Option<Seq<char>> {
        match self {
            JsonValue::String(s) => Some(s@),
            _ => None,
        }
    }

    /// The boolean held by the value, if it is one.
    pub fn as_bool(&self) -> (r: Option<bool>)
        ensures
            r == self.spec_as_bool(),
    {
        match self {
            JsonValue::Bool(b) => Some(*b),
            _ => None,
        }
    }

    /// The number held by the value, if it is one.
    pub fn as_number(&self) -> (r: Option<JsonNumber>)
        ensures
            r == self.spec_as_number(),
    {
        match self {
            JsonValue::Number(n) => Some(*n),
            _ => None,
        }
    }

    /// The value as a signed 64-bit integer, if it is an integer number in range.
    pub fn as_i64(&self) -> (r: Option<i64>)
        ensures
            r == self.spec_as_i64(),
    {
        match self {
            JsonValue::Number(n) => n.as_i64(),
            _ => None,
        }
    }

    /// The string held by the value, if it is one.
    pub fn as_str(&self) -> (r: Option<&str>)
        ensures
            match r {
                Some(s) => self.spec_as_str() == Some(s@),
                None => self.spec_as_str() is None,
            },
    {
        match self {
            JsonValue::String(s) => Some(s.as_str()),
            _ => None,
        }
    }
}

impl DaqData {
    /// Pairs each description with the raw value at the same position; where
    /// one list is longer, its surplus entries are dropped.
    pub fn from_parts(descriptions: DaqDescriptionList, raw: RawData) -> (r: DaqData)
        ensures
            r.values@.len() == if descriptions.list@.len() <= raw.data@.len() {
                descriptions.list@.len()
            } else {
                raw.data@.len()
            },
            forall|i: int|
                0 <= i < r.values@.len() ==> #[trigger] r.values@[i] == (DaqValue {
                    value: raw.data@[i],
                    description: descriptions.list@[i],
                }),
    {
        let mut descs = descriptions.list;
        let mut data = raw.data;
        let ghost d0 = descs@;
        let ghost v0 = data@;
        let n = if descs.len() <= data.len() {
            descs.len()
        } else {
            data.len()
        };
        descs.truncate(n);
        data.truncate(n);
        let mut values: Vec<DaqValue> = Vec::new();
        let mut k = n;
        while k > 0
            invariant
                k <= n,
                n <= d0.len(),
                n <= v0.len(),
                descs@ == d0.subrange(0, k as int),
                data@ == v0.subrange(0, k as int),
                values@.len() == n - k,
                forall|i: int|
                    0 <= i < n - k ==> #[trigger] values@[i] == (DaqValue {
                        value: v0[k + i],
                        description: d0[k + i],
                    }),
            decreases k,
        {
            let d = descs.pop();
            let v = data.pop();
            match (d, v) {
                (Some(description), Some(value)) => {
                    let ghost old_values = values@;
                    values.insert(0, DaqValue { value, description });
                    k = k - 1;
                    assert forall|i: int| 0 <= i < n - k implies #[trigger] values@[i] == (DaqValue {
                        value: v0[k + i],
                        description: d0[k + i],
                    }) by {
                        if i > 0 {
                            assert(values@[i] == old_values[i - 1]);
                        }
                    }
                },
                _ => {
                    proof { assert(false); }
                },
            }
        }
        DaqData { values }
    }
}

/// The address of the description list of the device at `addr`.
pub fn daq_description_url(addr: &str, key: &str) -> (r: String)
    ensures
        r@ == "http://"@ + addr@ + "/ext/daqdesc.cgi?key="@ + key@,
{
    let mut s = String::new();
    s.append("http://");
    s.append(addr);
    s.append("/ext/daqdesc.cgi?key=");
    s.append(key);
    s
}

/// The address of the raw value list of the device at `addr`.
pub fn daq_data_url(addr: &str, key: &str) -> (r: String)
    ensures
        r@ == "http://"@ + addr@ + "/ext/daqdata.cgi?key="@ + key@,
{
    let mut s = String::new();
    s.append("http://");
    s.append(addr);
    s.append("/ext/daqdata.cgi?key=");
    s.append(key);
    s
}

} // verus!
