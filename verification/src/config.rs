//! The command line of the node program.
use vstd::prelude::*;
use crate::text::{chars_of, decimal, digit_char, signed_decimal};

verus! {

/// What the command line asks the node program to be.
#[derive(Debug)]
pub struct AppConfig {
    pub node_name: String,
    pub local_proxy_port: i32,
    pub public_router_port: i32,
    pub remote_peer_internet_addr: String,
    pub bootstrap_mode: Option<String>,
}

/// Why a command line is refused.
#[derive(Debug)]
pub enum ArgsError {
    /// Fewer than four arguments after the program name.
    Usage,
}

/// `c` is an ASCII decimal digit.
pub open spec fn is_digit(c: char) -> bool {
    '0' <= c <= '9'
}

/// The value of a string of decimal digits.
pub open spec fn digits_value(s: Seq<char>) -> nat
    decreases s.len(),
{
    if s.len() == 0 {
        0
    } else {
        digits_value(s.drop_last()) * 10 + ((s.last() as int) - ('0' as int)) as nat
    }
}

/// Every character of `s` is a decimal digit.
pub open spec fn all_digits(s: Seq<char>) -> bool {
    forall|i: int| 0 <= i < s.len() ==> is_digit(#[trigger] s[i])
}

/// The `i32` that `text` writes in decimal, as `i32`'s `FromStr` reads it:
/// an optional `+` or `-`, then at least one digit, within the range of `i32`.
pub open spec fn i32_from_text(text: Seq<char>) -> Option<i32> {
    let signed = text.len() > 0 && (text[0] == '-' || text[0] == '+');
    let negative = text.len() > 0 && text[0] == '-';
    let digits = if signed { text.subrange(1, text.len() as int) } else { text };
    if digits.len() == 0 || !all_digits(digits) {
        None
    } else {
        let value: int = if negative { -digits_value(digits) } else { digits_value(digits) as int };
        if i32::MIN <= value <= i32::MAX {
            Some(value as i32)
        } else {
            None
        }
    }
}

/// A string of digits is worth at least any of its prefixes.
proof fn lemma_digits_value_prefix(s: Seq<char>, k: int)
    requires
        0 <= k <= s.len(),
        all_digits(s),
    ensures
        digits_value(s.subrange(0, k)) <= digits_value(s),
    decreases s.len() - k,
{
    if k < s.len() {
        lemma_digits_value_prefix(s, k + 1);
        assert(s.subrange(0, k + 1).drop_last() =~= s.subrange(0, k));
        assert(is_digit(s[k]));
    } else {
        assert(s.subrange(0, k) =~= s);
    }
}

proof fn lemma_digit_char(d: nat)
    requires
        d < 10,
    ensures
        is_digit(digit_char(d)),
        (digit_char(d) as int) - ('0' as int) == d,
{
    assert(d == 0 || d == 1 || d == 2 || d == 3 || d == 4 || d == 5 || d == 6 || d == 7 || d == 8 || d == 9);
}

proof fn lemma_decimal_digits(n: nat)
    ensures
        decimal(n).len() > 0,
        all_digits(decimal(n)),
        digits_value(decimal(n)) == n,
    decreases n,
{
    lemma_digit_char(n % 10);
    if n >= 10 {
        lemma_decimal_digits(n / 10);
        let s = decimal(n / 10);
        assert(decimal(n).drop_last() =~= s);
        assert(decimal(n).last() == digit_char(n % 10));
        assert(digits_value(decimal(n)) == digits_value(s) * 10 + ((digit_char(n % 10) as int) - ('0' as int)));
        assert(n == (n / 10) * 10 + n % 10);
        assert forall|i: int| 0 <= i < decimal(n).len() implies is_digit(#[trigger] decimal(n)[i]) by {
            if i < s.len() {
                assert(decimal(n)[i] == s[i]);
            }
        }
    } else {
        assert(decimal(n).drop_last() =~= Seq::<char>::empty());
        assert(digits_value(Seq::<char>::empty()) == 0);
        assert(digits_value(decimal(n)) == digits_value(decimal(n).drop_last()) * 10 + ((digit_char(n) as int) - ('0' as int)));
    }
}

/// A port written in decimal reads back as the same port: what the node
/// writes into its listen addresses is the number it was given.
pub proof fn lemma_i32_decimal_reads_back(n: i32)
    ensures
        i32_from_text(signed_decimal(n as int)) == Some(n),
{
    if n < 0 {
        lemma_decimal_digits((-n) as nat);
        let text = signed_decimal(n as int);
        assert(text.subrange(1, text.len() as int) =~= decimal((-n) as nat));
    } else {
        lemma_decimal_digits(n as nat);
        let text = decimal(n as nat);
        assert(is_digit(text[0]));
    }
}

/// `i32`'s `FromStr` on `text`: the number it writes, or `None`.
pub fn parse_i32(text: &str) -> (value: Option<i32>)
    ensures
        value == i32_from_text(text@),
{
    let chars = chars_of(text);
    let n = chars.len();
    let mut k: usize = 0;
    let mut negative = false;
    if n > 0 && (chars[0] == '-' || chars[0] == '+') {
        negative = chars[0] == '-';
        k = 1;
    }
    let start = k;
    let ghost digits = chars@.subrange(start as int, n as int);
    assert(start == 0 ==> digits =~= chars@);
    if start == n {
        return None;
    }
    let mut acc: i64 = 0;
    while k < n
        invariant
            chars@ == text@,
            start <= k <= n == chars@.len(),
            start == 1 <==> (n > 0 && (chars@[0] == '-' || chars@[0] == '+')),
            start == 0 || start == 1,
            negative == (n > 0 && chars@[0] == '-'),
            digits == chars@.subrange(start as int, n as int),
            start == 0 ==> digits == chars@,
            all_digits(digits.subrange(0, k - start)),
            acc == digits_value(digits.subrange(0, k - start)),
            acc <= 2147483648,
        decreases n - k,
    {
        let c = chars[k];
        if !('0' <= c && c <= '9') {
            assert(digits[k - start] == c);
            assert(!all_digits(digits));
            return None;
        }
        let d: i64 = (c as u32 - '0' as u32) as i64;
        let next = acc * 10 + d;
        assert(digits.subrange(0, k + 1 - start).drop_last() =~= digits.subrange(0, k - start));
        assert(all_digits(digits.subrange(0, k + 1 - start)));
        assert(digits.subrange(0, k + 1 - start).last() == c);
        assert(d == (c as int) - ('0' as int));
        assert(next == digits_value(digits.subrange(0, k + 1 - start)));
        if next > 2147483648 {
            proof {
                if all_digits(digits) {
                    lemma_digits_value_prefix(digits, k + 1 - start);
                }
            }
            return None;
        }
        acc = next;
        k = k + 1;
    }
    assert(digits.subrange(0, n - start) =~= digits);
    let value: i64 = if negative { -acc } else { acc };
    if value > 2147483647 {
        return None;
    }
    Some(value as i32)
}

/// The command line `args` (the program name first): a node name, the local
/// proxy port, the public router port, the remote peer's internet address,
/// and optionally a bootstrap mode. Both ports must be `i32` numerals: the
/// program stops on any other port argument before asking for its config.
pub fn parse_args(args: &Vec<String>) -> (config: Result<AppConfig, ArgsError>)
    requires
        args@.len() >= 5 ==> i32_from_text(args@[2]@) is Some && i32_from_text(args@[3]@) is Some,
    ensures
        args@.len() < 5 <==> config is Err,
        config matches Ok(c) ==> {
            &&& c.node_name@ == args@[1]@
            &&& Some(c.local_proxy_port) == i32_from_text(args@[2]@)
            &&& Some(c.public_router_port) == i32_from_text(args@[3]@)
            &&& c.remote_peer_internet_addr@ == args@[4]@
            &&& (args@.len() > 5 ==> (c.bootstrap_mode matches Some(m) && m@ == args@[5]@))
            &&& (args@.len() == 5 ==> c.bootstrap_mode is None)
        },
{
    if args.len() < 5 {
        return Err(ArgsError::Usage);
    }
    let local_proxy_port = match parse_i32(args[2].as_str()) {
        Some(p) => p,
        None => {
            proof {
                assert(false);
            }
            return Err(ArgsError::Usage);
        },
    };
    let public_router_port = match parse_i32(args[3].as_str()) {
        Some(p) => p,
        None => {
            proof {
                assert(false);
            }
            return Err(ArgsError::Usage);
        },
    };
    let bootstrap_mode = if args.len() > 5 { Some(args[5].clone()) } else { None };
    Ok(AppConfig {
        node_name: args[1].clone(),
        local_proxy_port,
        public_router_port,
        remote_peer_internet_addr: args[4].clone(),
        bootstrap_mode,
    })
}

} // verus!
