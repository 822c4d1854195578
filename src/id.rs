use crate::errors::Error;
use vstd::arithmetic::div_mod::{lemma_div_denominator, lemma_fundamental_div_mod};
use vstd::prelude::*;
use vstd::string::*;

verus! {

/// The 64 symbols of the identifier alphabet, in value order.
pub open spec fn alphabet() -> Seq<char> {
    "abcdefghijklmnopqrstuvwxyzABCDEFGHIJKLMNOPQRSTUVWXYZ0123456789-+"@
}

/// Value of a symbol of the alphabet, or -1 for any other character.
pub open spec fn symbol_value(c: char) -> int {
    if 'a' <= c && c <= 'z' {
        c as int - 'a' as int
    } else if 'A' <= c && c <= 'Z' {
        c as int - 'A' as int + 26
    } else if '0' <= c && c <= '9' {
        c as int - '0' as int + 52
    } else if c == '-' {
        62
    } else if c == '+' {
        63
    } else {
        -1
    }
}

/// The symbol of value `v` (0 <= v < 64).
pub open spec fn symbol(v: int) -> char {
    alphabet()[v]
}

/// Value of the first `i` symbols of `s` read as an identifier prefix.
pub open spec fn partial_value(s: Seq<char>, i: int) -> int
    decreases i,
{
    if i <= 0 {
        0
    } else if i <= 5 {
        partial_value(s, i - 1) * 64 + symbol_value(s[i - 1])
    } else {
        partial_value(s, 5) * 4 + symbol_value(s[5])
    }
}

/// 64 to the power `i`.
pub open spec fn pow64(i: nat) -> int
    decreases i,
{
    if i == 0 {
        1
    } else {
        64 * pow64((i - 1) as nat)
    }
}

proof fn lemma_pow64_bounded(i: nat)
    requires
        i <= 5,
    ensures
        1 <= pow64(i) <= pow64(5),
        pow64(5) == 0x4000_0000,
    decreases 5 - i,
{
    reveal_with_fuel(pow64, 6);
    if i < 5 {
        lemma_pow64_bounded(i + 1);
    }
}

/// The symbol of value `v` as a one-character string.
fn symbol_str(v: u32) -> (r: &'static str)
    requires
        v < 64,
    ensures
        r@ == seq![symbol(v as int)],
{
    let table = "abcdefghijklmnopqrstuvwxyzABCDEFGHIJKLMNOPQRSTUVWXYZ0123456789-+";
    proof {
        reveal_strlit("abcdefghijklmnopqrstuvwxyzABCDEFGHIJKLMNOPQRSTUVWXYZ0123456789-+");
    }
    let r = table.substring_char(v as usize, v as usize + 1);
    assert(r@ =~= seq![symbol(v as int)]);
    r
}

/// Value of a symbol, or -1 where it is not in the alphabet.
fn symbol_value_exec(c: char) -> (r: i64)
    ensures
        r == symbol_value(c),
{
    if 'a' <= c && c <= 'z' {
        (c as u32 - 'a' as u32) as i64
    } else if 'A' <= c && c <= 'Z' {
        (c as u32 - 'A' as u32 + 26) as i64
    } else if '0' <= c && c <= '9' {
        (c as u32 - '0' as u32 + 52) as i64
    } else if c == '-' {
        62
    } else if c == '+' {
        63
    } else {
        -1
    }
}

/// The six symbols that encode `n`: five groups of six bits from the top,
/// then the last two bits.
pub open spec fn encode_id(n: u32) -> Seq<char> {
    seq![
        symbol(n as int / 0x4000000 % 64),
        symbol(n as int / 0x100000 % 64),
        symbol(n as int / 0x4000 % 64),
        symbol(n as int / 0x100 % 64),
        symbol(n as int / 4 % 64),
        symbol(n as int % 4),
    ]
}

/// The number that six valid symbols encode.
pub open spec fn decoded_value(s: Seq<char>) -> int {
    ((((symbol_value(s[0]) * 64 + symbol_value(s[1])) * 64 + symbol_value(s[2])) * 64
        + symbol_value(s[3])) * 64 + symbol_value(s[4])) * 4 + symbol_value(s[5])
}

/// Whether every symbol of `s` is valid at its position: the first five carry
/// six bits, the last one two.
pub open spec fn valid_symbols(s: Seq<char>) -> bool {
    &&& forall|i: int| 0 <= i < 5 ==> #[trigger] symbol_value(s[i]) >= 0
    &&& 0 <= symbol_value(s[5]) < 4
}

/// What parsing the text `s` gives.
pub open spec fn parse_id(s: Seq<char>) -> Result<u32, Error> {
    if s.len() != 6 {
        Err(Error::WrongSize)
    } else if !valid_symbols(s) {
        Err(Error::IllegalCharacters)
    } else {
        Ok(decoded_value(s) as u32)
    }
}

/// A 32-bit entry identifier with a six-symbol text form.
#[derive(Debug, Clone, Copy, PartialEq, Eq, Hash)]
pub struct Id {
    pub n: u32,
}

impl Id {
    /// The identifier with value `n`.
    pub fn from_u32(n: u32) -> (r: Id)
        ensures
            r.n == n,
    {
        Id { n }
    }

    /// The value of this identifier.
    pub fn as_u32(&self) -> (r: u32)
        ensures
            r == self.n,
    {
        self.n
    }

    /// The six-symbol text of this identifier.
    pub fn to_string(&self) -> (r: String)
        ensures
            r@ == encode_id(self.n),
    {
        let n = self.n;
        let mut s = String::new();
        s.append(symbol_str(n / 0x4000000 % 64));
        s.append(symbol_str(n / 0x100000 % 64));
        s.append(symbol_str(n / 0x4000 % 64));
        s.append(symbol_str(n / 0x100 % 64));
        s.append(symbol_str(n / 4 % 64));
        s.append(symbol_str(n % 4));
        proof {
            assert(s@ =~= encode_id(n));
        }
        s
    }

    /// Parses the six-symbol text form.
    pub fn parse(s: &str) -> (r: Result<Id, Error>)
        ensures
            r matches Ok(id) ==> parse_id(s@) == Ok::<u32, Error>(id.n),
            r matches Err(e) ==> parse_id(s@) == Err::<u32, Error>(e),
    {
        if s.unicode_len() != 6 {
            return Err(Error::WrongSize);
        }
        let mut n: u32 = 0;
        let mut i: usize = 0;
        while i < 6
            invariant
                s@.len() == 6,
                0 <= i <= 6,
                forall|j: int| 0 <= j < i && j < 5 ==> #[trigger] symbol_value(s@[j]) >= 0,
                i == 6 ==> 0 <= symbol_value(s@[5]) < 4,
                n as int == partial_value(s@, i as int),
                i <= 5 ==> n < pow64(i as nat),
            decreases 6 - i,
        {
            let c = s.get_char(i);
            let v = symbol_value_exec(c);
            if v < 0 || (i == 5 && v >= 4) {
                proof {
                    assert(!valid_symbols(s@));
                }
                return Err(Error::IllegalCharacters);
            }
            proof {
                reveal_with_fuel(pow64, 6);
                lemma_pow64_bounded(i as nat);
            }
            if i < 5 {
                assert(n * 64 + v < pow64((i + 1) as nat)) by (nonlinear_arith)
                    requires
                        n < pow64(i as nat),
                        0 <= v < 64,
                        pow64((i + 1) as nat) == 64 * pow64(i as nat),
                ;
                n = n * 64 + v as u32;
            } else {
                n = n * 4 + v as u32;
            }
            i = i + 1;
        }
        proof {
            reveal_with_fuel(partial_value, 7);
        }
        Ok(Id { n })
    }
}

proof fn lemma_symbol_value(v: int)
    requires
        0 <= v < 64,
    ensures
        symbol_value(symbol(v)) == v,
{
    reveal_strlit("abcdefghijklmnopqrstuvwxyzABCDEFGHIJKLMNOPQRSTUVWXYZ0123456789-+");
}

/// The text form of an identifier parses back to the same identifier.
pub proof fn lemma_id_text_round_trip(n: u32)
    ensures
        parse_id(encode_id(n)) == Ok::<u32, Error>(n),
{
    let x = n as int;
    lemma_fundamental_div_mod(x, 4);
    lemma_fundamental_div_mod(x / 4, 64);
    lemma_fundamental_div_mod(x / 0x100, 64);
    lemma_fundamental_div_mod(x / 0x4000, 64);
    lemma_fundamental_div_mod(x / 0x100000, 64);
    lemma_div_denominator(x, 4, 64);
    lemma_div_denominator(x, 0x100, 64);
    lemma_div_denominator(x, 0x4000, 64);
    lemma_div_denominator(x, 0x100000, 64);
    let s = encode_id(n);
    lemma_symbol_value(x / 0x4000000 % 64);
    lemma_symbol_value(x / 0x100000 % 64);
    lemma_symbol_value(x / 0x4000 % 64);
    lemma_symbol_value(x / 0x100 % 64);
    lemma_symbol_value(x / 4 % 64);
    lemma_symbol_value(x % 4);
    assert(x / 0x4000000 < 64);
    assert(valid_symbols(s));
    assert(decoded_value(s) == x);
}

impl From<u32> for Id {
    fn from(n: u32) -> (r: Id) {
        Id { n }
    }
}

impl vstd::std_specs::convert::FromSpecImpl<u32> for Id {
    open spec fn obeys_from_spec() -> bool {
        true
    }

    open spec fn from_spec(n: u32) -> Id {
        Id { n }
    }
}

} // verus!
