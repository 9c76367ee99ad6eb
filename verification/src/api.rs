//! The parameter-setting interface of a Guntamatic device (`parset.cgi`):
//! which synonym names which setting, how a setting and its value are put
//! into the request address, and what the device answers.

use vstd::prelude::*;
use vstd::string::*;

use crate::text::{append_decimal, decimal, lemma_decimal_injective};

verus! {

/// The device to talk to: its address and the key that authenticates.
#[derive(Debug, PartialEq)]
pub struct Context {
    pub addr: String,
    pub key: String,
}

/// The device's answer to a parameter request.
#[derive(Debug, PartialEq)]
pub enum Response {
    Ack { ack: String },
    Error { err: String },
}

/// The settings that the device lets a client change, by their synonyms.
#[derive(Debug, Clone, Copy, PartialEq, Eq, Structural)]
pub enum Synonym {
    /// `PK002`: Powerchip/Powercorn/Biocom/Pro; `K0010`: Therm/Biostar.
    BoilerMode,
    /// `PR001`.
    ControlProgram,
    /// `HKx01`, for heating circuit 0..8 (named `HK201` for circuit 2).
    HeatingProgram { heating_circuit_id: u8 },
    /// `BKx06`, for heating circuit 0..2 (named `BK106` for circuit 1).
    HotWaterReload { heating_circuit_id: u8 },
    /// `ZKx06`, for heating circuit 0..2 (named `ZK006` for circuit 0).
    AdditionalHotWaterReload { heating_circuit_id: u8 },
}

/// The boiler's operating mode.
#[derive(Debug, Clone, Copy, PartialEq, Eq, Structural)]
pub enum BoilerMode {
    Auto,
    Off,
    On,
}

/// The control program.
#[derive(Debug, Clone, Copy, PartialEq, Eq, Structural)]
pub enum ControlProgram {
    Off,
    Normal,
    HotWater,
    /// Only for PC/BC/PH/TH/BS/PRO.
    Manual,
}

/// The program of a heating circuit.
#[derive(Debug, Clone, Copy, PartialEq, Eq, Structural)]
pub enum HeatingProgram {
    Off,
    Normal,
    Heat,
    Reduce,
}

/// The value that a parameter request sets.
#[derive(Debug, PartialEq)]
pub struct Value<V> {
    pub value: V,
}

impl<V> Value<V> {
    /// Wraps `v`.
    pub fn new(v: V) -> (r: Self)
        ensures
            r.value == v,
    {
        Self { value: v }
    }
}

impl BoilerMode {
    /// The number that stands for the mode on the wire.
    pub open spec fn spec_code(self) -> u8 {
        match self {
            BoilerMode::Auto => 0,
            BoilerMode::Off => 1,
            BoilerMode::On => 2,
        }
    }

    /// The number that stands for the mode on the wire.
    pub fn code(&self) -> (r: u8)
        ensures
            r == self.spec_code(),
    {
        match self {
            BoilerMode::Auto => 0,
            BoilerMode::Off => 1,
            BoilerMode::On => 2,
        }
    }
}

impl ControlProgram {
    /// The number that stands for the program on the wire.
    pub open spec fn spec_code(self) -> u8 {
        match self {
            ControlProgram::Off => 0,
            ControlProgram::Normal => 1,
            ControlProgram::HotWater => 2,
            ControlProgram::Manual => 3,
        }
    }

    /// The number that stands for the program on the wire.
    pub fn code(&self) -> (r: u8)
        ensures
            r == self.spec_code(),
    {
        match self {
            ControlProgram::Off => 0,
            ControlProgram::Normal => 1,
            ControlProgram::HotWater => 2,
            ControlProgram::Manual => 3,
        }
    }
}

impl HeatingProgram {
    /// The number that stands for the program on the wire.
    pub open spec fn spec_code(self) -> u8 {
        match self {
            HeatingProgram::Off => 0,
            HeatingProgram::Normal => 1,
            HeatingProgram::Heat => 2,
            HeatingProgram::Reduce => 3,
        }
    }

    /// The number that stands for the program on the wire.
    pub fn code(&self) -> (r: u8)
        ensures
            r == self.spec_code(),
    {
        match self {
            HeatingProgram::Off => 0,
            HeatingProgram::Normal => 1,
            HeatingProgram::Heat => 2,
            HeatingProgram::Reduce => 3,
        }
    }
}

/// The boiler modes go on the wire as Auto 0, Off 1, On 2, so distinct
/// modes are sent as distinct numbers.
pub proof fn lemma_boiler_mode_codes(a: BoilerMode, b: BoilerMode)
    ensures
        BoilerMode::Auto.spec_code() == 0,
        BoilerMode::Off.spec_code() == 1,
        BoilerMode::On.spec_code() == 2,
        a.spec_code() < 3,
        a.spec_code() == b.spec_code() ==> a == b,
{
}

/// The control programs go on the wire as Off 0, Normal 1, HotWater 2,
/// Manual 3, so distinct programs are sent as distinct numbers.
pub proof fn lemma_control_program_codes(a: ControlProgram, b: ControlProgram)
    ensures
        ControlProgram::Off.spec_code() == 0,
        ControlProgram::Normal.spec_code() == 1,
        ControlProgram::HotWater.spec_code() == 2,
        ControlProgram::Manual.spec_code() == 3,
        a.spec_code() < 4,
        a.spec_code() == b.spec_code() ==> a == b,
{
}

/// The heating programs go on the wire as Off 0, Normal 1, Heat 2, Reduce 3,
/// so distinct programs are sent as distinct numbers.
pub proof fn lemma_heating_program_codes(a: HeatingProgram, b: HeatingProgram)
    ensures
        HeatingProgram::Off.spec_code() == 0,
        HeatingProgram::Normal.spec_code() == 1,
        HeatingProgram::Heat.spec_code() == 2,
        HeatingProgram::Reduce.spec_code() == 3,
        a.spec_code() < 4,
        a.spec_code() == b.spec_code() ==> a == b,
{
}

/// The name of a setting of a heating circuit: the synonym with its `x`
/// replaced by the circuit's id, e.g. `HK201` for `HKx01` on circuit 2.
pub open spec fn circuit_synonym(prefix: Seq<char>, id: u8, suffix: Seq<char>) -> Seq<char> {
    prefix + decimal(id as nat) + suffix
}

impl Synonym {
    /// The text that names the setting in a request: a plain setting's
    /// synonym, a heating circuit's setting as its synonym with the circuit's
    /// id in place of the `x`.
    pub open spec fn spec_text(self) -> Seq<char> {
        match self {
            Synonym::BoilerMode => "PK002"@,
            Synonym::ControlProgram => "PR001"@,
            Synonym::HeatingProgram { heating_circuit_id } => circuit_synonym(
                "HK"@,
                heating_circuit_id,
                "01"@,
            ),
            Synonym::HotWaterReload { heating_circuit_id } => circuit_synonym(
                "BK"@,
                heating_circuit_id,
                "06"@,
            ),
            Synonym::AdditionalHotWaterReload { heating_circuit_id } => circuit_synonym(
                "ZK"@,
                heating_circuit_id,
                "06"@,
            ),
        }
    }

    /// Appends the text that names the setting to `s`.
    pub fn append_text(&self, s: &mut String)
        ensures
            final(s)@ == old(s)@ + self.spec_text(),
    {
        let (prefix, id, suffix): (&str, u8, &str) = match self {
            Synonym::BoilerMode => {
                s.append("PK002");
                return ;
            },
            Synonym::ControlProgram => {
                s.append("PR001");
                return ;
            },
            Synonym::HeatingProgram { heating_circuit_id } => ("HK", *heating_circuit_id, "01"),
            Synonym::HotWaterReload { heating_circuit_id } => ("BK", *heating_circuit_id, "06"),
            Synonym::AdditionalHotWaterReload { heating_circuit_id } => (
                "ZK",
                *heating_circuit_id,
                "06",
            ),
        };
        let ghost s0 = s@;
        s.append(prefix);
        append_decimal(s, id as u128);
        s.append(suffix);
        assert(s@ =~= s0 + circuit_synonym(prefix@, id, suffix@));
    }

    /// The text that names the setting in a request.
    pub fn to_text(&self) -> (r: String)
        ensures
            r@ == self.spec_text(),
    {
        let mut s = String::new();
        self.append_text(&mut s);
        s
    }
}

/// The name of a circuit setting determines its prefix's first character,
/// and, for one prefix and suffix, the circuit's id.
proof fn lemma_circuit_synonym_injective(
    p1: Seq<char>,
    a: u8,
    s1: Seq<char>,
    p2: Seq<char>,
    b: u8,
    s2: Seq<char>,
)
    requires
        p1.len() == 2,
        p2.len() == 2,
        s1.len() == 2,
        s2.len() == 2,
        circuit_synonym(p1, a, s1) == circuit_synonym(p2, b, s2),
    ensures
        p1[0] == p2[0],
        p1 == p2 && s1 == s2 ==> a == b,
{
    let x = circuit_synonym(p1, a, s1);
    let y = circuit_synonym(p2, b, s2);
    assert(x[0] == p1[0]);
    assert(y[0] == p2[0]);
    if p1 == p2 && s1 == s2 {
        assert(x.subrange(2, x.len() - 2) =~= decimal(a as nat));
        assert(y.subrange(2, y.len() - 2) =~= decimal(b as nat));
        lemma_decimal_injective(a as nat, b as nat);
    }
}

/// The settings are named `PK002` and `PR001`, and for circuit `id`
/// `HK<id>01`, `BK<id>06` and `ZK<id>06`.
pub proof fn lemma_synonym_texts(id: u8)
    ensures
        Synonym::BoilerMode.spec_text() == seq!['P', 'K', '0', '0', '2'],
        Synonym::ControlProgram.spec_text() == seq!['P', 'R', '0', '0', '1'],
        (Synonym::HeatingProgram { heating_circuit_id: id }).spec_text() == seq!['H', 'K'] + decimal(
            id as nat,
        ) + seq!['0', '1'],
        (Synonym::HotWaterReload { heating_circuit_id: id }).spec_text() == seq!['B', 'K'] + decimal(
            id as nat,
        ) + seq!['0', '6'],
        (Synonym::AdditionalHotWaterReload { heating_circuit_id: id }).spec_text() == seq!['Z', 'K']
            + decimal(id as nat) + seq!['0', '6'],
{
    reveal_strlit("PK002");
    reveal_strlit("PR001");
    reveal_strlit("HK");
    reveal_strlit("BK");
    reveal_strlit("ZK");
    reveal_strlit("01");
    reveal_strlit("06");
    assert("PK002"@ =~= seq!['P', 'K', '0', '0', '2']);
    assert("PR001"@ =~= seq!['P', 'R', '0', '0', '1']);
    assert("HK"@ =~= seq!['H', 'K']);
    assert("BK"@ =~= seq!['B', 'K']);
    assert("ZK"@ =~= seq!['Z', 'K']);
    assert("01"@ =~= seq!['0', '1']);
    assert("06"@ =~= seq!['0', '6']);
}

/// The value of a request is written as `value=` and the number in decimal.
pub proof fn lemma_value_query_text(v: u8)
    ensures
        spec_value_query(v) == seq!['v', 'a', 'l', 'u', 'e', '='] + decimal(v as nat),
{
    reveal_strlit("value");
    assert("value"@ =~= seq!['v', 'a', 'l', 'u', 'e']);
    assert(seq!['v', 'a', 'l', 'u', 'e'] + seq!['='] =~= seq!['v', 'a', 'l', 'u', 'e', '=']);
}

/// The prefix and suffix of a circuit setting's name.
spec fn circuit_parts(s: Synonym) -> (Seq<char>, Seq<char>) {
    match s {
        Synonym::HeatingProgram { .. } => ("HK"@, "01"@),
        Synonym::HotWaterReload { .. } => ("BK"@, "06"@),
        _ => ("ZK"@, "06"@),
    }
}

/// Distinct settings are named by distinct texts, so the device can tell
/// every request apart.
pub proof fn lemma_synonym_text_injective(s1: Synonym, s2: Synonym)
    ensures
        s1.spec_text() == s2.spec_text() ==> s1 == s2,
{
    reveal_strlit("PK002");
    reveal_strlit("PR001");
    reveal_strlit("HK");
    reveal_strlit("BK");
    reveal_strlit("ZK");
    reveal_strlit("01");
    reveal_strlit("06");
    if s1.spec_text() == s2.spec_text() {
        let j = s1.spec_text();
        assert(j[0] == s2.spec_text()[0]);
        match s1 {
            Synonym::BoilerMode | Synonym::ControlProgram => {
                assert(j[0] == 'P');
                assert(j[1] == s2.spec_text()[1]);
                match s2 {
                    Synonym::BoilerMode | Synonym::ControlProgram => {},
                    _ => {},
                }
            },
            Synonym::HeatingProgram { heating_circuit_id: a }
            | Synonym::HotWaterReload { heating_circuit_id: a }
            | Synonym::AdditionalHotWaterReload { heating_circuit_id: a } => {
                assert(j[0] != 'P');
                match s2 {
                    Synonym::HeatingProgram { heating_circuit_id: b }
                    | Synonym::HotWaterReload { heating_circuit_id: b }
                    | Synonym::AdditionalHotWaterReload { heating_circuit_id: b } => {
                        let (p1, x1) = circuit_parts(s1);
                        let (p2, x2) = circuit_parts(s2);
                        lemma_circuit_synonym_injective(p1, a, x1, p2, b, x2);
                    },
                    _ => {},
                }
            },
        }
    }
}

/// The query text that sets the value `v`.
pub open spec fn spec_value_query(v: u8) -> Seq<char> {
    "value"@ + seq!['='] + decimal(v as nat)
}

#[verifier::external_type_specification]
#[verifier::external_body]
pub struct ExQsError(serde_qs::Error);

/// What `serde_qs::to_string` gives for the one-entry map `{key: value}`:
/// `None` where it fails.
pub uninterp spec fn serde_qs_pair(key: Seq<char>, value: u8) -> Option<Seq<char>>;

/// Whether `key` is a nonempty text of ASCII letters and digits, which a
/// query string holds as it is.
pub open spec fn is_plain_key(key: Seq<char>) -> bool {
    &&& key.len() > 0
    &&& forall|i: int|
        0 <= i < key.len() ==> ('a' <= #[trigger] key[i] && key[i] <= 'z') || ('A' <= key[i]
            && key[i] <= 'Z') || ('0' <= key[i] && key[i] <= '9')
}

/// Writes the query string of the one-entry map `{key: value}` with
/// `serde_qs::to_string`.
/// Trusted: the result is the named result for these arguments; for a key
/// of ASCII letters and digits (written as it is, unescaped) it is `key=`
/// followed by the value in decimal (itoa), and it does not fail. Nothing
/// is claimed of keys that need escaping.
#[verifier::external_body]
fn query_pair(key: &str, value: u8) -> (r: Result<String, serde_qs::Error>)
    ensures
        r is Ok ==> serde_qs_pair(key@, value) == Some(r->Ok_0@),
        r is Err ==> serde_qs_pair(key@, value) is None,
        is_plain_key(key@) ==> r is Ok && r->Ok_0@ == key@ + seq!['='] + decimal(value as nat),
{
    serde_qs::to_string(&std::collections::BTreeMap::from([(key, value)]))
}

/// The query text that sets the value `v`, written by the query-string
/// encoder.
pub fn value_query(v: u8) -> (r: String)
    ensures
        r@ == spec_value_query(v),
{
    let key = "value";
    proof {
        reveal_strlit("value");
        assert(is_plain_key(key@)) by {
            assert(key@ =~= seq!['v', 'a', 'l', 'u', 'e']);
        }
    }
    match query_pair(key, v) {
        Ok(q) => q,
        Err(_) => {
            proof { assert(false); }
            String::new()
        },
    }
}

/// The address of the request that sets `synonym` to `value` on the device.
pub open spec fn spec_parset_url(addr: Seq<char>, key: Seq<char>, synonym: Synonym, value: u8) -> Seq<char> {
    "http://"@ + addr + "/ext/parset.cgi?key="@ + key + "&syn="@ + synonym.spec_text() + "&"@
        + spec_value_query(value)
}

/// The request address is `http://<addr>/ext/parset.cgi?key=<key>&syn=<name>&value=<n>`.
pub proof fn lemma_parset_url_text(addr: Seq<char>, key: Seq<char>, synonym: Synonym, value: u8)
    ensures
        spec_parset_url(addr, key, synonym, value) == seq!['h', 't', 't', 'p', ':', '/', '/'] + addr
            + seq!['/', 'e', 'x', 't', '/', 'p', 'a', 'r', 's', 'e', 't', '.', 'c', 'g', 'i', '?', 'k', 'e', 'y', '=']
            + key + seq!['&', 's', 'y', 'n', '='] + synonym.spec_text() + seq!['&'] + seq![
            'v',
            'a',
            'l',
            'u',
            'e',
            '=',
        ] + decimal(value as nat),
{
    reveal_strlit("http://");
    reveal_strlit("/ext/parset.cgi?key=");
    reveal_strlit("&syn=");
    reveal_strlit("&");
    lemma_value_query_text(value);
    assert("http://"@ =~= seq!['h', 't', 't', 'p', ':', '/', '/']);
    assert("/ext/parset.cgi?key="@ =~= seq!['/', 'e', 'x', 't', '/', 'p', 'a', 'r', 's', 'e', 't', '.', 'c', 'g', 'i', '?', 'k', 'e', 'y', '=']);
    assert("&syn="@ =~= seq!['&', 's', 'y', 'n', '=']);
    assert("&"@ =~= seq!['&']);
    assert(spec_parset_url(addr, key, synonym, value) =~= seq!['h', 't', 't', 'p', ':', '/', '/'] + addr
            + seq!['/', 'e', 'x', 't', '/', 'p', 'a', 'r', 's', 'e', 't', '.', 'c', 'g', 'i', '?', 'k', 'e', 'y', '=']
            + key + seq!['&', 's', 'y', 'n', '='] + synonym.spec_text() + seq!['&'] + seq![
            'v',
            'a',
            'l',
            'u',
            'e',
            '=',
        ] + decimal(value as nat));
}

/// The address of the request that sets `synonym` to `value` on the device.
pub fn parset_url(ctx: &Context, synonym: Synonym, value: Value<u8>) -> (r: String)
    ensures
        r@ == spec_parset_url(ctx.addr@, ctx.key@, synonym, value.value),
{
    let mut s = String::new();
    s.append("http://");
    s.append(ctx.addr.as_str());
    s.append("/ext/parset.cgi?key=");
    s.append(ctx.key.as_str());
    s.append("&syn=");
    synonym.append_text(&mut s);
    s.append("&");
    let query = value_query(value.value);
    s.append(query.as_str());
    s
}

/// The request that sets the boiler's mode.
pub fn set_boiler_mode_url(ctx: &Context, mode: BoilerMode) -> (r: String)
    ensures
        r@ == spec_parset_url(ctx.addr@, ctx.key@, Synonym::BoilerMode, mode.spec_code()),
{
    parset_url(ctx, Synonym::BoilerMode, Value::new(mode.code()))
}

/// The request that sets the control program.
pub fn set_control_program_url(ctx: &Context, program: ControlProgram) -> (r: String)
    ensures
        r@ == spec_parset_url(ctx.addr@, ctx.key@, Synonym::ControlProgram, program.spec_code()),
{
    parset_url(ctx, Synonym::ControlProgram, Value::new(program.code()))
}

/// The request that sets the program of a heating circuit.
pub fn set_heating_circuit_program_url(
    ctx: &Context,
    heating_circuit_id: u8,
    program: HeatingProgram,
) -> (r: String)
    ensures
        r@ == spec_parset_url(
            ctx.addr@,
            ctx.key@,
            Synonym::HeatingProgram { heating_circuit_id },
            program.spec_code(),
        ),
{
    parset_url(ctx, Synonym::HeatingProgram { heating_circuit_id }, Value::new(program.code()))
}

/// The request that starts a hot water reload on a heating circuit.
pub fn set_hot_water_reload_url(ctx: &Context, heating_circuit_id: u8) -> (r: String)
    ensures
        r@ == spec_parset_url(ctx.addr@, ctx.key@, Synonym::HotWaterReload { heating_circuit_id }, 1),
{
    parset_url(ctx, Synonym::HotWaterReload { heating_circuit_id }, Value { value: 1 })
}

/// The request that starts an additional hot water reload on a heating circuit.
pub fn set_additional_hot_water_reload_url(ctx: &Context, heating_circuit_id: u8) -> (r: String)
    ensures
        r@ == spec_parset_url(
            ctx.addr@,
            ctx.key@,
            Synonym::AdditionalHotWaterReload { heating_circuit_id },
            1,
        ),
{
    parset_url(ctx, Synonym::AdditionalHotWaterReload { heating_circuit_id }, Value { value: 1 })
}

} // verus!
