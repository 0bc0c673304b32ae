use vstd::prelude::*;
use vstd::arithmetic::div_mod::lemma_div_denominator;
use vstd::arithmetic::power::{lemma_pow_positive, pow};
use vstd::string::StrSliceExecFns;

verus! {

/// A JSON value given as a contract-call parameter.
#[derive(Debug)]
pub enum JsonParam {
    Null,
    Bool(bool),
    /// A number; the payload is its value when it is an integer that fits
    /// in a `u64`.
    Number(Option<u64>),
    String(String),
    Array(Vec<JsonParam>),
    Object,
}

/// The type of a contract-function parameter, as an ABI describes it.
#[derive(Debug)]
pub enum AbiType {
    Address,
    Bytes,
    Int(usize),
    Uint(usize),
    Bool,
    String,
    Array(Box<AbiType>),
    FixedBytes(usize),
    FixedArray(Box<AbiType>, usize),
    Tuple(Vec<AbiType>),
}

/// An ABI value ready for encoding. Addresses are their 20 bytes and
/// unsigned integers their 32 big-endian bytes.
#[derive(Debug)]
pub enum AbiToken {
    Address(Vec<u8>),
    Uint(Vec<u8>),
    Bool(bool),
    String(String),
    Bytes(Vec<u8>),
    Array(Vec<AbiToken>),
    FixedArray(Vec<AbiToken>),
}

/// What `ethers_core`'s `Address` parsing makes of `s`: the 20 bytes of
/// the address, or the text of the parse error.
pub uninterp spec fn parsed_address(s: Seq<char>) -> Result<Seq<u8>, Seq<char>>;

/// What `ethers_core`'s `U256` parsing (hexadecimal digits, optional `0x`)
/// makes of `s`: the 32 big-endian bytes of the number, or the text of the
/// parse error.
pub uninterp spec fn parsed_uint(s: Seq<char>) -> Result<Seq<u8>, Seq<char>>;

/// What `hex::decode` makes of `s`: the bytes it encodes, or the text of
/// the decoding error.
pub uninterp spec fn hex_decoded(s: Seq<char>) -> Result<Seq<u8>, Seq<char>>;

/// Byte `i` of the 32-byte big-endian form of `n`.
pub open spec fn be_byte(n: u64, i: int) -> u8 {
    if i < 24 {
        0
    } else {
        ((n as int / pow(256, (31 - i) as nat)) % 256) as u8
    }
}

/// `s` without any leading repetitions of `0x`.
pub open spec fn strip_hex_prefix(s: Seq<char>) -> Seq<char>
    decreases s.len(),
{
    if s.len() >= 2 && s[0] == '0' && s[1] == 'x' {
        strip_hex_prefix(s.subrange(2, s.len() as int))
    } else {
        s
    }
}

/// Whether `v`, given for a parameter of type `p`, converts to `t`.
pub open spec fn converts_to(v: JsonParam, p: AbiType, t: AbiToken) -> bool
    decreases p,
{
    match p {
        AbiType::Address => match v {
            JsonParam::String(s) => parsed_address(s@) matches Ok(b) && (t matches AbiToken::Address(
                tb,
            ) && tb@ == b),
            _ => false,
        },
        AbiType::Uint(_) => match v {
            JsonParam::String(s) => parsed_uint(s@) matches Ok(b) && (t matches AbiToken::Uint(tb)
                && tb@ == b),
            JsonParam::Number(Some(n)) => t matches AbiToken::Uint(tb) && tb@.len() == 32 && forall|
                i: int,
            |
                0 <= i < 32 ==> #[trigger] tb@[i] == be_byte(n, i),
            _ => false,
        },
        AbiType::String => match v {
            JsonParam::String(s) => t matches AbiToken::String(ts) && ts@ == s@,
            _ => false,
        },
        AbiType::Bool => match v {
            JsonParam::Bool(b) => t matches AbiToken::Bool(tb) && tb == b,
            _ => false,
        },
        AbiType::Bytes => match v {
            JsonParam::String(s) => hex_decoded(strip_hex_prefix(s@)) matches Ok(b) && (
            t matches AbiToken::Bytes(tb) && tb@ == b),
            _ => false,
        },
        AbiType::Array(inner) => match v {
            JsonParam::Array(items) => t matches AbiToken::Array(ts) && ts@.len() == items@.len()
                && forall|i: int|
                0 <= i < items@.len() ==> converts_to(#[trigger] items@[i], *inner, ts@[i]),
            _ => false,
        },
        AbiType::FixedArray(inner, _) => match v {
            JsonParam::Array(items) => t matches AbiToken::FixedArray(ts) && ts@.len()
                == items@.len() && forall|i: int|
                0 <= i < items@.len() ==> converts_to(#[trigger] items@[i], *inner, ts@[i]),
            _ => false,
        },
        _ => false,
    }
}

/// Whether `v`, given for a parameter of type `p`, converts at all.
pub open spec fn convertible(v: JsonParam, p: AbiType) -> bool
    decreases p,
{
    match p {
        AbiType::Address => v matches JsonParam::String(s) && parsed_address(s@) is Ok,
        AbiType::Uint(_) => match v {
            JsonParam::String(s) => parsed_uint(s@) is Ok,
            JsonParam::Number(Some(_)) => true,
            _ => false,
        },
        AbiType::String => v is String,
        AbiType::Bool => v is Bool,
        AbiType::Bytes => v matches JsonParam::String(s) && hex_decoded(strip_hex_prefix(s@)) is Ok,
        AbiType::Array(inner) => v matches JsonParam::Array(items) && forall|i: int|
            0 <= i < items@.len() ==> convertible(#[trigger] items@[i], *inner),
        AbiType::FixedArray(inner, _) => v matches JsonParam::Array(items) && forall|i: int|
            0 <= i < items@.len() ==> convertible(#[trigger] items@[i], *inner),
        _ => false,
    }
}

/// The message for a pairing of value and type that no rule covers.
pub open spec fn unsupported() -> Seq<char> {
    "Unsupported type conversion"@
}

/// The message with which converting `v` for a parameter of type `p`
/// fails, when it does not convert.
pub open spec fn conversion_error(v: JsonParam, p: AbiType) -> Seq<char>
    decreases p, 0int, 0int,
{
    match p {
        AbiType::Address => match v {
            JsonParam::String(s) => match parsed_address(s@) {
                Err(m) => "Invalid address: "@ + m,
                Ok(_) => seq![],
            },
            _ => unsupported(),
        },
        AbiType::Uint(_) => match v {
            JsonParam::String(s) => match parsed_uint(s@) {
                Err(m) => "Invalid uint: "@ + m,
                Ok(_) => seq![],
            },
            JsonParam::Number(None) => "Invalid uint number"@,
            JsonParam::Number(Some(_)) => seq![],
            _ => unsupported(),
        },
        AbiType::Bytes => match v {
            JsonParam::String(s) => match hex_decoded(strip_hex_prefix(s@)) {
                Err(m) => "Invalid bytes: "@ + m,
                Ok(_) => seq![],
            },
            _ => unsupported(),
        },
        AbiType::Array(inner) => match v {
            JsonParam::Array(items) => first_error(items@, *inner, 0),
            _ => unsupported(),
        },
        AbiType::FixedArray(inner, _) => match v {
            JsonParam::Array(items) => first_error(items@, *inner, 0),
            _ => unsupported(),
        },
        _ => unsupported(),
    }
}

/// The message of the first of `items`, from index `k` on, that does not
/// convert for a parameter of type `inner`.
pub open spec fn first_error(items: Seq<JsonParam>, inner: AbiType, k: int) -> Seq<char>
    decreases inner, 1int, items.len() - k,
{
    if 0 <= k < items.len() {
        if convertible(items[k], inner) {
            first_error(items, inner, k + 1)
        } else {
            conversion_error(items[k], inner)
        }
    } else {
        seq![]
    }
}

/// Relies on `FromStr` for `ethers_core::types::Address` and the error's
/// `Display`: the outcome depends on the text alone.
#[verifier::external_body]
fn address_bytes(s: &str) -> (r: Result<Vec<u8>, String>)
    ensures
        match r {
            Ok(b) => parsed_address(s@) == Ok::<Seq<u8>, Seq<char>>(b@),
            Err(m) => parsed_address(s@) == Err::<Seq<u8>, Seq<char>>(m@),
        },
{
    s.parse::<ethers_core::types::Address>().map(|a| a.as_bytes().to_vec()).map_err(|e| e.to_string())
}

/// Relies on `FromStr` for `ethers_core::types::U256`, its
/// `to_big_endian` and the error's `Display`: the outcome depends on the
/// text alone.
#[verifier::external_body]
fn uint_bytes_from_text(s: &str) -> (r: Result<Vec<u8>, String>)
    ensures
        match r {
            Ok(b) => parsed_uint(s@) == Ok::<Seq<u8>, Seq<char>>(b@),
            Err(m) => parsed_uint(s@) == Err::<Seq<u8>, Seq<char>>(m@),
        },
{
    match s.parse::<ethers_core::types::U256>() {
        Ok(v) => {
            let mut out = [0u8; 32];
            v.to_big_endian(&mut out);
            Ok(out.to_vec())
        },
        Err(e) => Err(e.to_string()),
    }
}

/// The 32 big-endian bytes of `n`, as a `U256` holds it.
fn uint_bytes_from_u64(n: u64) -> (r: Vec<u8>)
    ensures
        r@.len() == 32,
        forall|i: int| 0 <= i < 32 ==> #[trigger] r@[i] == be_byte(n, i),
{
    let mut out: Vec<u8> = Vec::new();
    let mut i: usize = 0;
    while i < 32
        invariant
            i <= 32,
            out@.len() == i,
            forall|j: int| 0 <= j < i ==> #[trigger] out@[j] == 0,
        decreases 32 - i,
    {
        out.push(0);
        i = i + 1;
    }
    let mut m: u64 = n;
    let mut k: usize = 0;
    proof {
        reveal(pow);
        assert(n as int / pow(256, 0) == n as int);
    }
    while k < 8
        invariant
            k <= 8,
            out@.len() == 32,
            m as int == n as int / pow(256, k as nat),
            forall|j: int| 0 <= j < 32 - k ==> #[trigger] out@[j] == 0,
            forall|j: int| 32 - k <= j < 32 ==> #[trigger] out@[j] == be_byte(n, j),
        decreases 8 - k,
    {
        proof {
            lemma_pow_positive(256, k as nat);
            lemma_div_denominator(n as int, pow(256, k as nat), 256);
            reveal(pow);
            assert(pow(256, (k + 1) as nat) == 256 * pow(256, k as nat));
            assert(pow(256, k as nat) * 256 == 256 * pow(256, k as nat)) by (nonlinear_arith);
        }
        out.set(31 - k, (m % 256) as u8);
        m = m / 256;
        k = k + 1;
    }
    out
}

/// Relies on `hex::decode` and the error's `Display`: the outcome depends
/// on the text alone.
#[verifier::external_body]
fn decode_hex(s: &str) -> (r: Result<Vec<u8>, String>)
    ensures
        match r {
            Ok(b) => hex_decoded(s@) == Ok::<Seq<u8>, Seq<char>>(b@),
            Err(m) => hex_decoded(s@) == Err::<Seq<u8>, Seq<char>>(m@),
        },
{
    hex::decode(s).map_err(|e| e.to_string())
}

/// `s` without any leading repetitions of `0x`.
pub fn trim_hex_prefix(s: &str) -> (r: &str)
    ensures
        r@ == strip_hex_prefix(s@),
{
    let n = s.unicode_len();
    let mut start: usize = 0;
    assert(s@.subrange(0, n as int) =~= s@);
    while n - start >= 2 && s.get_char(start) == '0' && s.get_char(start + 1) == 'x'
        invariant
            start <= n,
            n == s@.len(),
            strip_hex_prefix(s@.subrange(start as int, n as int)) == strip_hex_prefix(s@),
        decreases n - start,
    {
        proof {
            let rest = s@.subrange(start as int, n as int);
            assert(rest.subrange(2, rest.len() as int) =~= s@.subrange(start + 2, n as int));
        }
        start = start + 2;
    }
    s.substring_char(start, n)
}

/// Converts a JSON parameter into the ABI token for a parameter of type
/// `param`: an address or a `U256` from text, a `U256` from a number, a
/// string, a boolean, bytes from hexadecimal text (leading `0x` dropped),
/// and arrays element by element. Any other pairing is refused; the message
/// says why, and for an array it is that of the first element that fails.
pub fn convert_json_to_token(value: &JsonParam, param: &AbiType) -> (r: Result<AbiToken, String>)
    ensures
        match r {
            Ok(t) => convertible(*value, *param) && converts_to(*value, *param, t),
            Err(m) => !convertible(*value, *param) && m@ == conversion_error(*value, *param),
        },
    decreases param, 0nat,
{
    match param {
        AbiType::Address => match value {
            JsonParam::String(s) => match address_bytes(s.as_str()) {
                Ok(b) => Ok(AbiToken::Address(b)),
                Err(m) => Err("Invalid address: ".to_owned().concat(m.as_str())),
            },
            _ => Err(unsupported_message()),
        },
        AbiType::Uint(_) => match value {
            JsonParam::String(s) => match uint_bytes_from_text(s.as_str()) {
                Ok(b) => Ok(AbiToken::Uint(b)),
                Err(m) => Err("Invalid uint: ".to_owned().concat(m.as_str())),
            },
            JsonParam::Number(Some(n)) => Ok(AbiToken::Uint(uint_bytes_from_u64(*n))),
            JsonParam::Number(None) => Err("Invalid uint number".to_owned()),
            _ => Err(unsupported_message()),
        },
        AbiType::String => match value {
            JsonParam::String(s) => Ok(AbiToken::String(s.clone())),
            _ => Err(unsupported_message()),
        },
        AbiType::Bool => match value {
            JsonParam::Bool(b) => Ok(AbiToken::Bool(*b)),
            _ => Err(unsupported_message()),
        },
        AbiType::Bytes => match value {
            JsonParam::String(s) => match decode_hex(trim_hex_prefix(s.as_str())) {
                Ok(b) => Ok(AbiToken::Bytes(b)),
                Err(m) => Err("Invalid bytes: ".to_owned().concat(m.as_str())),
            },
            _ => Err(unsupported_message()),
        },
        AbiType::Array(inner) => match value {
            JsonParam::Array(items) => Ok(AbiToken::Array(convert_items(items, inner)?)),
            _ => Err(unsupported_message()),
        },
        AbiType::FixedArray(inner, _) => match value {
            JsonParam::Array(items) => Ok(AbiToken::FixedArray(convert_items(items, inner)?)),
            _ => Err(unsupported_message()),
        },
        _ => Err(unsupported_message()),
    }
}

fn unsupported_message() -> (r: String)
    ensures
        r@ == unsupported(),
{
    "Unsupported type conversion".to_owned()
}

/// Converts each of `items` for parameters of type `inner`, stopping at the
/// first that does not convert.
fn convert_items(items: &Vec<JsonParam>, inner: &Box<AbiType>) -> (r: Result<Vec<AbiToken>, String>)
    ensures
        match r {
            Ok(ts) => ts@.len() == items@.len() && forall|i: int|
                0 <= i < items@.len() ==> convertible(#[trigger] items@[i], **inner) && converts_to(
                    items@[i],
                    **inner,
                    ts@[i],
                ),
            Err(m) => !(forall|i: int|
                0 <= i < items@.len() ==> convertible(#[trigger] items@[i], **inner)) && m@
                == first_error(items@, **inner, 0),
        },
    decreases **inner, 1nat,
{
    let mut out: Vec<AbiToken> = Vec::new();
    let mut i: usize = 0;
    while i < items.len()
        invariant
            i <= items@.len(),
            out@.len() == i,
            forall|j: int|
                0 <= j < i ==> convertible(#[trigger] items@[j], **inner) && converts_to(
                    items@[j],
                    **inner,
                    out@[j],
                ),
            first_error(items@, **inner, 0) == first_error(items@, **inner, i as int),
        decreases items@.len() - i,
    {
        match convert_json_to_token(&items[i], inner) {
            Ok(t) => out.push(t),
            Err(e) => {
                assert(!convertible(items@[i as int], **inner));
                return Err(e);
            },
        }
        i = i + 1;
    }
    Ok(out)
}

} // verus!
