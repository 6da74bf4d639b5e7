//! Application configuration values and their defaults.
//!
//! The surrounding process reads raw text from its environment and hands
//! it here as plain values; this module applies the fixed defaults.

use vstd::prelude::*;
use vstd::string::StrSliceExecFns;

verus! {

/// A decimal digit.
pub open spec fn is_digit(c: char) -> bool {
    48 <= c as u32 && c as u32 <= 57
}

/// The numeric value of a decimal digit.
pub open spec fn digit_val(c: char) -> int {
    c as u32 - 48
}

/// Whether every character of `s` is a decimal digit.
pub open spec fn all_digits(s: Seq<char>) -> bool {
    forall|i: int| 0 <= i < s.len() ==> is_digit(#[trigger] s[i])
}

/// The value of `s` read as a decimal numeral.
pub open spec fn dec_val(s: Seq<char>) -> int
    decreases s.len(),
{
    if s.len() == 0 {
        0
    } else {
        dec_val(s.drop_last()) * 10 + digit_val(s.last())
    }
}

/// What parsing a port number accepts: an optional leading `+`, then one
/// or more decimal digits whose value fits in sixteen bits. Anything else
/// is rejected and the default port applies.
pub open spec fn spec_parse_u16(s: Seq<char>) -> Option<u16> {
    let digits = if s.len() > 0 && s[0] == '+' {
        s.drop_first()
    } else {
        s
    };
    if digits.len() > 0 && all_digits(digits) && dec_val(digits) <= 65535 {
        Some(dec_val(digits) as u16)
    } else {
        None
    }
}

proof fn lemma_dec_val_take_step(s: Seq<char>, i: int)
    requires
        0 <= i < s.len(),
    ensures
        dec_val(s.take(i + 1)) == dec_val(s.take(i)) * 10 + digit_val(s[i]),
{
    assert(s.take(i + 1).drop_last() =~= s.take(i));
    assert(s.take(i + 1).last() == s[i]);
}

proof fn lemma_dec_val_nonneg(s: Seq<char>)
    requires
        all_digits(s),
    ensures
        dec_val(s) >= 0,
    decreases s.len(),
{
    if s.len() > 0 {
        assert(is_digit(s.last()));
        assert(all_digits(s.drop_last()));
        lemma_dec_val_nonneg(s.drop_last());
    }
}

proof fn lemma_dec_val_prefix_bound(s: Seq<char>, i: int)
    requires
        all_digits(s),
        0 <= i <= s.len(),
    ensures
        dec_val(s.take(i)) <= dec_val(s),
    decreases s.len() - i,
{
    if i == s.len() {
        assert(s.take(i) =~= s);
    } else {
        assert(all_digits(s.take(i)));
        lemma_dec_val_nonneg(s.take(i));
        lemma_dec_val_take_step(s, i);
        assert(is_digit(s[i]));
        lemma_dec_val_prefix_bound(s, i + 1);
    }
}

/// Parses a port number: an optional leading `+`, then one or more
/// decimal digits whose value fits in sixteen bits. Returns `None` for
/// anything else.
pub fn parse_port(s: &str) -> (r: Option<u16>)
    ensures
        r == spec_parse_u16(s@),
{
    let n = s.unicode_len();
    let mut start: usize = 0;
    if n > 0 && s.get_char(0) == '+' {
        start = 1;
    }
    let ghost digits = if s@.len() > 0 && s@[0] == '+' {
        s@.drop_first()
    } else {
        s@
    };
    proof {
        if s@.len() > 0 && s@[0] == '+' {
            assert(digits =~= s@.skip(1));
        } else {
            assert(digits =~= s@.skip(0));
            assert(digits =~= s@);
        }
    }
    if start == n {
        return None;
    }
    let mut acc: u32 = 0;
    let mut k: usize = start;
    while k < n
        invariant
            start <= k <= n,
            n == s@.len(),
            start < n,
            digits == (if s@.len() > 0 && s@[0] == '+' {
                s@.drop_first()
            } else {
                s@
            }),
            digits == s@.skip(start as int),
            digits.len() == n - start,
            forall|j: int| start <= j < n ==> digits[j - start] == s@[j],
            all_digits(digits.take(k - start)),
            acc == dec_val(digits.take(k - start)),
            acc <= 65535,
        decreases n - k,
    {
        let c = s.get_char(k);
        let u = c as u32;
        proof {
            assert(digits[k - start] == s@[k as int]);
        }
        if u < 48 || u > 57 {
            proof {
                assert(!is_digit(digits[k - start]));
                assert(!all_digits(digits));
            }
            return None;
        }
        let d = u - 48;
        let next = acc * 10 + d;
        proof {
            lemma_dec_val_take_step(digits, k - start);
            assert(digit_val(digits[k - start]) == d);
            assert(dec_val(digits.take(k - start + 1)) == acc * 10 + d);
        }
        if next > 65535 {
            proof {
                if all_digits(digits) {
                    lemma_dec_val_prefix_bound(digits, k - start + 1);
                    assert(dec_val(digits) > 65535);
                }
            }
            return None;
        }
        acc = next;
        k = k + 1;
        proof {
            assert(all_digits(digits.take(k - start)));
        }
    }
    proof {
        assert(digits.take(n - start) =~= digits);
    }
    Some(acc as u16)
}

/// Application configuration: the listening port, the name of the single
/// state store the service operates against, and the telemetry exporter
/// settings.
pub struct Config {
    pub port: u16,
    pub store_name: String,
    pub otel_exporter_endpoint: Option<String>,
    pub otel_service_name: String,
}

impl Config {
    /// Builds the configuration from raw environment values, applying the
    /// defaults: port 8080, store name "statestore", service name
    /// "example-rust-dapr-otel". The exporter endpoint has no default; it
    /// stays absent when unset, leaving telemetry off.
    pub fn from_parts(
        port: Option<u16>,
        store_name: Option<String>,
        otel_exporter_endpoint: Option<String>,
        otel_service_name: Option<String>,
    ) -> (c: Config)
        ensures
            c.port == (match port {
                Some(p) => p,
                None => 8080u16,
            }),
            c.store_name@ == (match store_name {
                Some(s) => s@,
                None => "statestore"@,
            }),
            c.otel_exporter_endpoint == otel_exporter_endpoint,
            c.otel_service_name@ == (match otel_service_name {
                Some(s) => s@,
                None => "example-rust-dapr-otel"@,
            }),
    {
        Config {
            port: match port {
                Some(p) => p,
                None => 8080,
            },
            store_name: match store_name {
                Some(s) => s,
                None => "statestore".to_owned(),
            },
            otel_exporter_endpoint,
            otel_service_name: match otel_service_name {
                Some(s) => s,
                None => "example-rust-dapr-otel".to_owned(),
            },
        }
    }
}

} // verus!
