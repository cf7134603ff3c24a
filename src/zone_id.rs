use vstd::prelude::*;
use vstd::string::{StrSliceExecFns, StringExecFns, StringSliceAdditionalSpecFns};
use vstd::std_specs::bits::u64_leading_zeros;
use vstd::utf8::is_char_boundary;

verus! {

/// Which parts of a zone the grid adapters fill in.
#[derive(Clone, Copy, Debug, PartialEq, Eq, Structural)]
pub struct Config {
    pub region: bool,
    pub center: bool,
    pub vertex_count: bool,
    pub children: bool,
    pub neighbors: bool,
    pub area_sqm: bool,
    pub densify: bool,
}

impl Default for Config {
    /// Every part switched on.
    fn default() -> (r: Self)
        ensures
            r == default_config_spec(),
    {
        default_config()
    }
}

pub open spec fn default_config_spec() -> Config {
    Config {
        region: true,
        center: true,
        vertex_count: true,
        children: true,
        neighbors: true,
        area_sqm: true,
        densify: true,
    }
}

/// Every part switched on.
pub fn default_config() -> (r: Config)
    ensures
        r == default_config_spec(),
{
    Config {
        region: true,
        center: true,
        vertex_count: true,
        children: true,
        neighbors: true,
        area_sqm: true,
        densify: true,
    }
}

pub open spec fn is_lower_hex_char(c: char) -> bool {
    ('0' <= c && c <= '9') || ('a' <= c && c <= 'f')
}

/// Sixteen bytes, all lower-case hexadecimal digits.
pub open spec fn is_zone_hex_id_spec(s: &str) -> bool {
    s.spec_bytes().len() == 16 && forall|i: int| 0 <= i < s@.len() ==> is_lower_hex_char(
        #[trigger] s@[i],
    )
}

/// Whether a zone id is written as sixteen lower-case hexadecimal digits.
pub fn is_zone_hex_id(s: &str) -> (r: bool)
    ensures
        r == is_zone_hex_id_spec(s),
{
    if s.as_bytes().len() != 16 {
        return false;
    }
    let n = s.unicode_len();
    let mut i: usize = 0;
    while i < n
        invariant
            n == s@.len(),
            i <= n,
            forall|k: int| 0 <= k < i ==> is_lower_hex_char(#[trigger] s@[k]),
        decreases n - i,
    {
        let c = s.get_char(i);
        if !(('0' <= c && c <= '9') || ('a' <= c && c <= 'f')) {
            assert(!is_lower_hex_char(s@[i as int]));
            return false;
        }
        i += 1;
    }
    true
}

pub open spec fn is_digit(b: u8) -> bool {
    48 <= b <= 57
}

/// What `u8` parsing makes of two bytes: an optional `+` and a digit, or two
/// digits.
pub open spec fn parse_two_digits(b0: u8, b1: u8) -> Option<u8> {
    if b0 == 43 && is_digit(b1) {
        Some((b1 - 48) as u8)
    } else if is_digit(b0) && is_digit(b1) {
        Some((10 * (b0 - 48) + (b1 - 48)) as u8)
    } else {
        None
    }
}

/// The resolution of an aperture 3 zone id: the number its first two
/// bytes spell.
pub open spec fn res_from_z3_spec(id: &str) -> Result<u8, Seq<char>> {
    let b = id.spec_bytes();
    if b.len() < 2 {
        Err("ZoneID too short to extract resolution"@)
    } else {
        match parse_two_digits(b[0], b[1]) {
            Some(v) => Ok(v),
            None => Err("Invalid resolution prefix in ZoneID"@),
        }
    }
}

pub open spec fn result_matches(r: Result<u8, String>, s: Result<u8, Seq<char>>) -> bool {
    match (r, s) {
        (Ok(a), Ok(b)) => a == b,
        (Err(a), Err(b)) => a@ == b,
        _ => false,
    }
}

/// Extracts the resolution from an aperture 3 zone id (its first two
/// bytes, in decimal).
pub fn extract_res_from_z3(id: &str) -> (r: Result<u8, String>)
    requires
        id.spec_bytes().len() >= 2 ==> is_char_boundary(id.spec_bytes(), 2),
    ensures
        result_matches(r, res_from_z3_spec(id)),
{
    let b = id.as_bytes();
    if b.len() < 2 {
        return Err(String::from_str("ZoneID too short to extract resolution"));
    }
    let b0 = b[0];
    let b1 = b[1];
    if b0 == 43 && 48 <= b1 && b1 <= 57 {
        Ok(b1 - 48)
    } else if 48 <= b0 && b0 <= 57 && 48 <= b1 && b1 <= 57 {
        Ok(10 * (b0 - 48) + (b1 - 48))
    } else {
        Err(String::from_str("Invalid resolution prefix in ZoneID"))
    }
}

pub open spec fn is_hex_digit(b: u8) -> bool {
    is_digit(b) || (97 <= b <= 102) || (65 <= b <= 70)
}

pub open spec fn hex_digit_value(b: u8) -> int {
    if is_digit(b) {
        b - 48
    } else if 97 <= b <= 102 {
        b - 87
    } else {
        b - 55
    }
}

/// The value of a run of hexadecimal digits.
pub open spec fn hex_value(s: Seq<u8>) -> int
    decreases s.len(),
{
    if s.len() == 0 {
        0
    } else {
        hex_value(s.drop_last()) * 16 + hex_digit_value(s.last())
    }
}

/// The digits after an optional leading `+`.
pub open spec fn hex_digits(s: Seq<u8>) -> Seq<u8> {
    if s.len() > 0 && s[0] == 43 {
        s.subrange(1, s.len() as int)
    } else {
        s
    }
}

/// What parsing a `u64` in base 16 makes of the bytes: some digits, after
/// an optional `+`, whose value fits.
pub open spec fn parse_hex_spec(s: Seq<u8>) -> Option<u64> {
    let d = hex_digits(s);
    if d.len() > 0 && (forall|i: int| 0 <= i < d.len() ==> is_hex_digit(#[trigger] d[i])) && hex_value(
        d,
    ) <= u64::MAX {
        Some(hex_value(d) as u64)
    } else {
        None
    }
}

proof fn lemma_hex_value_nonneg(s: Seq<u8>)
    requires
        forall|i: int| 0 <= i < s.len() ==> is_hex_digit(#[trigger] s[i]),
    ensures
        hex_value(s) >= 0,
    decreases s.len(),
{
    if s.len() > 0 {
        assert(is_hex_digit(s[s.len() - 1]));
        lemma_hex_value_nonneg(s.drop_last());
    }
}

proof fn lemma_hex_value_grows(s: Seq<u8>, k: int)
    requires
        0 <= k <= s.len(),
        forall|i: int| 0 <= i < s.len() ==> is_hex_digit(#[trigger] s[i]),
    ensures
        hex_value(s.subrange(0, k)) <= hex_value(s),
    decreases s.len() - k,
{
    if k < s.len() {
        let t = s.subrange(0, k + 1);
        assert(t.drop_last() =~= s.subrange(0, k));
        assert(is_hex_digit(s[k]));
        assert(hex_digit_value(t.last()) >= 0);
        lemma_hex_value_nonneg(s.subrange(0, k));
        lemma_hex_value_grows(s, k + 1);
    } else {
        assert(s.subrange(0, k) =~= s);
    }
}

/// Parses a `u64` written in base 16, after an optional `+`.
fn parse_hex(s: &[u8]) -> (r: Option<u64>)
    ensures
        r == parse_hex_spec(s@),
{
    let start: usize = if s.len() > 0 && s[0] == 43 {
        1
    } else {
        0
    };
    let ghost d = hex_digits(s@);
    assert(d =~= s@.subrange(start as int, s@.len() as int));
    if start == s.len() {
        return None;
    }
    let mut acc: u64 = 0;
    let mut i: usize = start;
    while i < s.len()
        invariant
            start <= i <= s@.len(),
            d == hex_digits(s@),
            d == s@.subrange(start as int, s@.len() as int),
            forall|k: int| 0 <= k < i - start ==> is_hex_digit(#[trigger] d[k]),
            acc == hex_value(d.subrange(0, i - start)),
        decreases s@.len() - i,
    {
        let b = s[i];
        let v: u64 = if 48 <= b && b <= 57 {
            (b - 48) as u64
        } else if 97 <= b && b <= 102 {
            (b - 87) as u64
        } else if 65 <= b && b <= 70 {
            (b - 55) as u64
        } else {
            proof {
                assert(d[i - start] == b);
                assert(!is_hex_digit(d[i - start]));
                assert(0 <= i - start < d.len());
                assert(!(forall|k: int| 0 <= k < d.len() ==> is_hex_digit(#[trigger] d[k])));
                assert(parse_hex_spec(s@) is None);
            }
            return None;
        };
        let ghost prefix = d.subrange(0, i - start + 1);
        proof {
            assert(prefix.drop_last() =~= d.subrange(0, i - start));
            assert(prefix.last() == b);
        }
        if acc > (u64::MAX - v) / 16 {
            proof {
                assert(hex_value(prefix) == acc * 16 + v);
                assert(acc * 16 + v > u64::MAX) by (nonlinear_arith)
                    requires
                        acc > (u64::MAX - v) / 16,
                        v <= 15,
                ;
                assert(hex_value(prefix) > u64::MAX);
                if forall|k: int| 0 <= k < d.len() ==> is_hex_digit(#[trigger] d[k]) {
                    lemma_hex_value_grows(d, i - start + 1);
                    assert(hex_value(d) > u64::MAX);
                }
                assert(parse_hex_spec(s@) is None);
            }
            return None;
        }
        proof {
            assert(hex_value(prefix) == acc * 16 + v);
            assert(acc * 16 + v <= u64::MAX) by (nonlinear_arith)
                requires
                    acc <= (u64::MAX - v) / 16,
                    v <= 15,
            ;
            assert(is_hex_digit(d[i - start]));
        }
        acc = acc * 16 + v;
        i += 1;
        proof {
            assert(prefix =~= d.subrange(0, i - start));
        }
    }
    assert(d.subrange(0, d.len() as int) =~= d);
    Some(acc)
}

/// The resolution of an aperture 7 zone id: 0 and 1 for ids of one and two
/// bytes; otherwise 2 plus the leading zeros of the hexadecimal value
/// shifted left by four bits.
pub open spec fn res_from_z7_spec(id: &str) -> Result<u8, Seq<char>> {
    let b = id.spec_bytes();
    if b.len() == 1 {
        Ok(0)
    } else if b.len() == 2 {
        Ok(1)
    } else {
        match parse_hex_spec(b) {
            None => Err("Invalid hex ZoneID"@),
            Some(num) => {
                let lz = u64_leading_zeros((num << 4u64) as u64);
                if lz > 63 {
                    Err("Invalid IGEO7 ZoneID: No resolution mask found"@)
                } else {
                    Ok((2 + lz) as u8)
                }
            },
        }
    }
}

/// Extracts the resolution from an aperture 7 zone id.
pub fn extract_res_from_z7(id: &str) -> (r: Result<u8, String>)
    ensures
        result_matches(r, res_from_z7_spec(id)),
{
    let b = id.as_bytes();
    if b.len() == 1 {
        return Ok(0);
    } else if b.len() == 2 {
        return Ok(1);
    }
    let num = match parse_hex(b) {
        Some(n) => n,
        None => return Err(String::from_str("Invalid hex ZoneID")),
    };
    let shifted = num << 4u64;
    let lz = shifted.leading_zeros();
    if lz > 63 {
        return Err(String::from_str("Invalid IGEO7 ZoneID: No resolution mask found"));
    }
    let res = 2 + lz;
    Ok(res as u8)
}

/// Whether two strings hold the same characters.
fn same_text(a: &str, b: &str) -> (r: bool)
    ensures
        r == (a@ == b@),
{
    let n = a.unicode_len();
    if n != b.unicode_len() {
        return false;
    }
    let mut i: usize = 0;
    while i < n
        invariant
            n == a@.len(),
            n == b@.len(),
            i <= n,
            forall|k: int| 0 <= k < i ==> a@[k] == b@[k],
        decreases n - i,
    {
        if a.get_char(i) != b.get_char(i) {
            return false;
        }
        i += 1;
    }
    assert(a@ =~= b@);
    true
}

/// The resolution of a zone id of the named grid type: aperture 3 ids for
/// ISEA3H, and for IGEO7 too.
pub open spec fn res_from_cellid_spec(id: &str, dggs_type: &str) -> Result<u8, Seq<char>> {
    if dggs_type@ == "ISEA3H"@ || dggs_type@ == "IGEO7"@ {
        res_from_z3_spec(id)
    } else {
        Err("Unsupported DGGS type: "@ + dggs_type@)
    }
}

/// Extracts the resolution from a zone id of the named grid type.
pub fn extract_res_from_cellid(id: &str, dggs_type: &str) -> (r: Result<u8, String>)
    requires
        (dggs_type@ == "ISEA3H"@ || dggs_type@ == "IGEO7"@) && id.spec_bytes().len() >= 2
            ==> is_char_boundary(id.spec_bytes(), 2),
    ensures
        result_matches(r, res_from_cellid_spec(id, dggs_type)),
{
    if same_text(dggs_type, "ISEA3H") {
        extract_res_from_z3(id)
    } else if same_text(dggs_type, "IGEO7") {
        extract_res_from_z3(id)
    } else {
        Err(String::from_str("Unsupported DGGS type: ").concat(dggs_type))
    }
}

} // verus!
