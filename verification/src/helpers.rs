//! Small lexical helpers shared by the code generation engine: the
//! operator-to-function naming scheme, decimal rendering of integer
//! literals, and string escaping.

use vstd::prelude::*;
use vstd::string::StrSliceExecFns;
use vstd::string::StringExecFns;

verus! {

/// Relies on `str`'s `PartialEq`: two string slices are equal exactly
/// when they hold the same characters.
#[verifier::external_body]
pub(crate) fn str_eq(a: &str, b: &str) -> (r: bool)
    ensures
        r == (a@ == b@),
{
    a == b
}

/// Relies on `String::push`: appends exactly the given character.
pub assume_specification[ std::string::String::push ](s: &mut std::string::String, c: char)
    ensures
        final(s)@ == old(s)@.push(c),
;

// ---------------------------------------------------------------------
// Operator-overload function names.
//
// An operator spelling with no native translation becomes a call to a
// deterministically named function: `__saturnus_operator_` followed by
// one word per operator character, the words joined with underscores.
// ---------------------------------------------------------------------

/// Whether the operator character has a word in the naming table.
pub open spec fn is_mapped_symbol(c: char) -> bool {
    c == '+' || c == '-' || c == '*' || c == '/' || c == '.' || c == '|' || c == '>' || c == '<'
        || c == '=' || c == '?' || c == '!' || c == '~' || c == '%' || c == '&' || c == '#'
        || c == '$' || c == '^' || c == ':'
}

/// The word standing for one operator character.
pub open spec fn symbol_word(c: char) -> Seq<char> {
    if c == '+' {
        "plus"@
    } else if c == '-' {
        "minus"@
    } else if c == '*' {
        "times"@
    } else if c == '/' {
        "slash"@
    } else if c == '.' {
        "dot"@
    } else if c == '|' {
        "pipe"@
    } else if c == '>' {
        "greater"@
    } else if c == '<' {
        "less"@
    } else if c == '=' {
        "equals"@
    } else if c == '?' {
        "interrogation"@
    } else if c == '!' {
        "exclamation"@
    } else if c == '~' {
        "tilde"@
    } else if c == '%' {
        "percent"@
    } else if c == '&' {
        "ampersand"@
    } else if c == '#' {
        "bang"@
    } else if c == '$' {
        "dollar"@
    } else if c == '^' {
        "power"@
    } else if c == ':' {
        "colon"@
    } else {
        Seq::empty()
    }
}

/// Whether every character of the operator spelling has a word.
pub open spec fn all_symbols_mapped(s: Seq<char>) -> bool {
    forall|i: int| 0 <= i < s.len() ==> is_mapped_symbol(#[trigger] s[i])
}

/// The operator characters' words joined with underscores.
pub open spec fn operator_words(s: Seq<char>) -> Seq<char>
    decreases s.len(),
{
    if s.len() == 0 {
        Seq::empty()
    } else if s.len() == 1 {
        symbol_word(s[0])
    } else {
        operator_words(s.drop_last()) + seq!['_'] + symbol_word(s.last())
    }
}

/// The full synthesized callee name for an overloaded operator.
pub open spec fn operator_fn_name(s: Seq<char>) -> Seq<char> {
    "__saturnus_operator_"@ + operator_words(s)
}

/// The word standing for one operator character, given as the byte read
/// from the operator spelling.
pub fn translate_operator_symbol(op: &u8) -> (r: String)
    requires
        is_mapped_symbol(*op as char),
    ensures
        r@ == symbol_word(*op as char),
{
    let c = *op as char;
    let s: &str = if c == '+' {
        "plus"
    } else if c == '-' {
        "minus"
    } else if c == '*' {
        "times"
    } else if c == '/' {
        "slash"
    } else if c == '.' {
        "dot"
    } else if c == '|' {
        "pipe"
    } else if c == '>' {
        "greater"
    } else if c == '<' {
        "less"
    } else if c == '=' {
        "equals"
    } else if c == '?' {
        "interrogation"
    } else if c == '!' {
        "exclamation"
    } else if c == '~' {
        "tilde"
    } else if c == '%' {
        "percent"
    } else if c == '&' {
        "ampersand"
    } else if c == '#' {
        "bang"
    } else if c == '$' {
        "dollar"
    } else if c == '^' {
        "power"
    } else {
        "colon"
    };
    s.to_owned()
}

/// Whether the character is one the operator naming table maps, decided
/// executably.
pub fn symbol_is_mapped(c: char) -> (r: bool)
    ensures
        r == is_mapped_symbol(c),
{
    c == '+' || c == '-' || c == '*' || c == '/' || c == '.' || c == '|' || c == '>' || c == '<'
        || c == '=' || c == '?' || c == '!' || c == '~' || c == '%' || c == '&' || c == '#'
        || c == '$' || c == '^' || c == ':'
}

/// Appends the words of the operator characters, joined with
/// underscores, to the given string.
fn append_operator_words(out: String, chain: &str) -> (r: String)
    requires
        all_symbols_mapped(chain@),
    ensures
        r@ == out@ + operator_words(chain@),
{
    let len = chain.unicode_len();
    let mut acc = out;
    let mut i: usize = 0;
    proof {
        assert(chain@.take(0) =~= Seq::<char>::empty());
        assert(acc@ + operator_words(chain@.take(0)) =~= acc@);
    }
    while i < len
        invariant
            len == chain@.len(),
            0 <= i <= len,
            all_symbols_mapped(chain@),
            acc@ == out@ + operator_words(chain@.take(i as int)),
        decreases len - i,
    {
        let c = chain.get_char(i);
        if i > 0 {
            acc.push('_');
        }
        let word = translate_operator_symbol(&(c as u8));
        proof {
            assert(c as u8 as char == c) by {
                assert(is_mapped_symbol(c));
            };
            let pre = chain@.take(i as int + 1);
            assert(pre.drop_last() =~= chain@.take(i as int));
            assert(pre.last() == chain@[i as int]);
        }
        acc.append(word.as_str());
        i = i + 1;
    }
    proof {
        assert(chain@.take(len as int) =~= chain@);
    }
    acc
}

/// The synthesized function name standing for an overloaded operator:
/// `__saturnus_operator_` followed by one word per operator character.
pub fn generate_operator_function_name(operator_chain: String) -> (r: String)
    requires
        all_symbols_mapped(operator_chain@),
    ensures
        r@ == operator_fn_name(operator_chain@),
{
    let head: String = "__saturnus_operator_".to_owned();
    append_operator_words(head, operator_chain.as_str())
}

// ---------------------------------------------------------------------
// Decimal rendering of integer literals.
// ---------------------------------------------------------------------

/// The decimal digit character for one digit value.
pub open spec fn dec_digit(d: nat) -> char {
    if d == 0 {
        '0'
    } else if d == 1 {
        '1'
    } else if d == 2 {
        '2'
    } else if d == 3 {
        '3'
    } else if d == 4 {
        '4'
    } else if d == 5 {
        '5'
    } else if d == 6 {
        '6'
    } else if d == 7 {
        '7'
    } else if d == 8 {
        '8'
    } else {
        '9'
    }
}

/// The decimal numeral of a natural number, without leading zeros.
pub open spec fn dec_nat(n: nat) -> Seq<char>
    decreases n,
{
    if n < 10 {
        seq![dec_digit(n)]
    } else {
        dec_nat(n / 10).push(dec_digit(n % 10))
    }
}

/// The decimal numeral of an integer: a minus sign before the magnitude
/// when negative.
pub open spec fn dec_int(i: int) -> Seq<char> {
    if i < 0 {
        seq!['-'] + dec_nat((-i) as nat)
    } else {
        dec_nat(i as nat)
    }
}

/// The decimal digit character for one digit value, decided executably.
fn digit_char(d: u64) -> (c: char)
    requires
        d < 10,
    ensures
        c == dec_digit(d as nat),
{
    match d {
        0 => '0',
        1 => '1',
        2 => '2',
        3 => '3',
        4 => '4',
        5 => '5',
        6 => '6',
        7 => '7',
        8 => '8',
        _ => '9',
    }
}

/// Renders an unsigned integer in decimal.
pub fn fmt_u64(n: u64) -> (r: String)
    ensures
        r@ == dec_nat(n as nat),
    decreases n,
{
    if n < 10 {
        let mut s = String::new();
        s.push(digit_char(n));
        proof {
            assert(s@ =~= dec_nat(n as nat));
        }
        s
    } else {
        let mut s = fmt_u64(n / 10);
        s.push(digit_char(n % 10));
        s
    }
}

/// Renders a signed integer in decimal.
pub fn fmt_i64(n: i64) -> (r: String)
    ensures
        r@ == dec_int(n as int),
{
    if n >= 0 {
        fmt_u64(n as u64)
    } else {
        let magnitude: u64 = (-(n as i128)) as u64;
        let mut s: String = "-".to_owned();
        let rest = fmt_u64(magnitude);
        s.append(rest.as_str());
        proof {
            reveal_strlit("-");
            assert(s@ =~= dec_int(n as int));
        }
        s
    }
}

// ---------------------------------------------------------------------
// String escaping.
// ---------------------------------------------------------------------

/// How one character appears inside a double-quoted target literal.
pub open spec fn escaped_char(c: char) -> Seq<char> {
    if c == '\n' {
        seq!['\\', 'n']
    } else {
        seq![c]
    }
}

/// The string as it appears inside a double-quoted target literal:
/// newlines become the two-character escape.
pub open spec fn escaped(s: Seq<char>) -> Seq<char>
    decreases s.len(),
{
    if s.len() == 0 {
        Seq::empty()
    } else {
        escaped_char(s[0]) + escaped(s.skip(1))
    }
}

/// Escapes a string for inclusion in a double-quoted target literal.
pub fn escape_string(str: String) -> (r: String)
    ensures
        r@ == escaped(str@),
{
    let len = str.as_str().unicode_len();
    let mut out = String::new();
    let mut i: usize = 0;
    proof {
        assert(str@.skip(0) =~= str@);
        assert(out@ + escaped(str@) =~= escaped(str@));
    }
    while i < len
        invariant
            len == str@.len(),
            0 <= i <= len,
            escaped(str@) == out@ + escaped(str@.skip(i as int)),
        decreases len - i,
    {
        let c = str.as_str().get_char(i);
        proof {
            assert(str@.skip(i as int)[0] == str@[i as int]);
            assert(str@.skip(i as int).skip(1) =~= str@.skip(i as int + 1));
        }
        if c == '\n' {
            out.append("\\n");
            proof {
                reveal_strlit("\\n");
                assert("\\n"@ =~= escaped_char(c));
            }
        } else {
            out.push(c);
            proof {
                assert(seq![c] =~= escaped_char(c));
            }
        }
        i = i + 1;
    }
    proof {
        assert(str@.skip(len as int) =~= Seq::<char>::empty());
        assert(escaped(str@) =~= out@);
    }
    out
}

} // verus!
