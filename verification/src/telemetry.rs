//! Endpoint normalization for the telemetry exporter.
//!
//! Telemetry initialization itself (exporters, providers) is an external
//! collaborator with no influence on core correctness; what is verified
//! here is the pure text handling that decides which endpoint, if any,
//! the exporter is given.

use vstd::prelude::*;
use vstd::string::StrSliceExecFns;
use vstd::string::StringExecFns;

verus! {

/// Whitespace as trimming understands it: the characters with the
/// Unicode White_Space property, the same set `str::trim` removes.
pub open spec fn is_space(c: char) -> bool {
    (0x9 <= c as u32 && c as u32 <= 0xD) || c == ' ' || c == '\u{0085}' || c == '\u{00A0}'
        || c == '\u{1680}' || (0x2000 <= c as u32 && c as u32 <= 0x200A) || c == '\u{2028}'
        || c == '\u{2029}' || c == '\u{202F}' || c == '\u{205F}' || c == '\u{3000}'
}

/// `s` without its leading whitespace.
pub open spec fn trim_start_spec(s: Seq<char>) -> Seq<char>
    decreases s.len(),
{
    if s.len() == 0 {
        s
    } else if is_space(s[0]) {
        trim_start_spec(s.drop_first())
    } else {
        s
    }
}

/// `s` without its trailing whitespace.
pub open spec fn trim_end_spec(s: Seq<char>) -> Seq<char>
    decreases s.len(),
{
    if s.len() == 0 {
        s
    } else if is_space(s.last()) {
        trim_end_spec(s.drop_last())
    } else {
        s
    }
}

/// `s` without surrounding whitespace.
pub open spec fn trim_spec(s: Seq<char>) -> Seq<char> {
    trim_end_spec(trim_start_spec(s))
}

/// Whether `p` is a prefix of `s`.
pub open spec fn spec_has_prefix(s: Seq<char>, p: Seq<char>) -> bool {
    p.len() <= s.len() && s.subrange(0, p.len() as int) == p
}

/// A trimmed endpoint with an explicit scheme: kept as it stands when it
/// already carries `http://` or `https://`, prefixed with `http://`
/// otherwise.
pub open spec fn spec_ensure_http(s: Seq<char>) -> Seq<char> {
    let t = trim_spec(s);
    if spec_has_prefix(t, "http://"@) || spec_has_prefix(t, "https://"@) {
        t
    } else {
        "http://"@ + t
    }
}

proof fn lemma_trim_start_skip(s: Seq<char>, i: int)
    requires
        0 <= i <= s.len(),
        forall|j: int| 0 <= j < i ==> is_space(s[j]),
    ensures
        trim_start_spec(s) == trim_start_spec(s.skip(i)),
    decreases i,
{
    if i == 0 {
        assert(s.skip(0) =~= s);
    } else {
        assert(is_space(s[0]));
        assert(s.drop_first() =~= s.skip(1));
        lemma_trim_start_skip(s.skip(1), i - 1);
        assert(s.skip(1).skip(i - 1) =~= s.skip(i));
    }
}

proof fn lemma_trim_start_at(s: Seq<char>, i: int)
    requires
        0 <= i < s.len(),
        forall|j: int| 0 <= j < i ==> is_space(s[j]),
        !is_space(s[i]),
    ensures
        trim_start_spec(s) == s.skip(i),
{
    lemma_trim_start_skip(s, i);
    assert(s.skip(i).len() > 0);
    assert(s.skip(i)[0] == s[i]);
}

proof fn lemma_trim_start_all(s: Seq<char>)
    requires
        forall|j: int| 0 <= j < s.len() ==> is_space(s[j]),
    ensures
        trim_start_spec(s) == Seq::<char>::empty(),
{
    lemma_trim_start_skip(s, s.len() as int);
    assert(s.skip(s.len() as int) =~= Seq::<char>::empty());
}

proof fn lemma_trim_end_take(s: Seq<char>, i: int)
    requires
        0 <= i <= s.len(),
        forall|j: int| i <= j < s.len() ==> is_space(s[j]),
    ensures
        trim_end_spec(s) == trim_end_spec(s.take(i)),
    decreases s.len() - i,
{
    if i == s.len() {
        assert(s.take(i) =~= s);
    } else {
        assert(is_space(s.last()));
        assert(s.drop_last() =~= s.take(s.len() - 1));
        lemma_trim_end_take(s.take(s.len() - 1), i);
        assert(s.take(s.len() - 1).take(i) =~= s.take(i));
    }
}

proof fn lemma_trim_end_at(s: Seq<char>, i: int)
    requires
        0 < i <= s.len(),
        forall|j: int| i <= j < s.len() ==> is_space(s[j]),
        !is_space(s[i - 1]),
    ensures
        trim_end_spec(s) == s.take(i),
{
    lemma_trim_end_take(s, i);
    assert(s.take(i).len() == i);
    assert(s.take(i).last() == s[i - 1]);
}

/// Returns `s` without surrounding whitespace.
pub fn trim_str<'a>(s: &'a str) -> (r: &'a str)
    ensures
        r@ == trim_spec(s@),
{
    let n = s.unicode_len();
    let mut i: usize = 0;
    while i < n && is_space_char(s.get_char(i))
        invariant
            i <= n,
            n == s@.len(),
            forall|j: int| 0 <= j < i ==> is_space(s@[j]),
        decreases n - i,
    {
        i = i + 1;
    }
    let mut j: usize = n;
    while j > i && is_space_char(s.get_char(j - 1))
        invariant
            i <= j <= n,
            n == s@.len(),
            forall|k: int| j <= k < n ==> is_space(s@[k]),
        decreases j,
    {
        j = j - 1;
    }
    let r = s.substring_char(i, j);
    proof {
        if i == n {
            lemma_trim_start_all(s@);
            assert(r@ =~= trim_spec(s@));
        } else {
            assert(!is_space(s@[i as int]));
            lemma_trim_start_at(s@, i as int);
            if j == i {
                assert(is_space(s@[i as int]));
            }
            assert(j > i);
            assert(!is_space(s@[j - 1]));
            let t = s@.skip(i as int);
            assert forall|k: int| j - i <= k < t.len() implies is_space(t[k]) by {
                assert(t[k] == s@[k + i]);
            }
            assert(t[j - i - 1] == s@[j - 1]);
            lemma_trim_end_at(t, j - i);
            assert(t.take(j - i) =~= s@.subrange(i as int, j as int));
            assert(r@ =~= trim_spec(s@));
        }
    }
    r
}

fn is_space_char(c: char) -> (r: bool)
    ensures
        r == is_space(c),
{
    let u = c as u32;
    (0x9 <= u && u <= 0xD) || c == ' ' || c == '\u{0085}' || c == '\u{00A0}' || c == '\u{1680}'
        || (0x2000 <= u && u <= 0x200A) || c == '\u{2028}' || c == '\u{2029}' || c == '\u{202F}'
        || c == '\u{205F}' || c == '\u{3000}'
}

/// Returns whether `p` is a prefix of `s`.
pub fn str_has_prefix(s: &str, p: &str) -> (r: bool)
    ensures
        r == spec_has_prefix(s@, p@),
{
    let sn = s.unicode_len();
    let pn = p.unicode_len();
    if pn > sn {
        return false;
    }
    let mut k: usize = 0;
    while k < pn
        invariant
            k <= pn,
            pn == p@.len(),
            pn <= sn,
            sn == s@.len(),
            forall|t: int| 0 <= t < k ==> s@[t] == p@[t],
        decreases pn - k,
    {
        if s.get_char(k) != p.get_char(k) {
            proof {
                assert(s@.subrange(0, pn as int)[k as int] != p@[k as int]);
            }
            return false;
        }
        k = k + 1;
    }
    proof {
        assert(s@.subrange(0, pn as int) =~= p@);
    }
    true
}

/// Normalizes a telemetry exporter endpoint to carry an explicit scheme:
/// the trimmed value as it stands when it already begins with `http://`
/// or `https://`, and with `http://` prepended otherwise.
pub fn ensure_http(endpoint: &str) -> (r: String)
    ensures
        r@ == spec_ensure_http(endpoint@),
{
    let t = trim_str(endpoint);
    if str_has_prefix(t, "http://") || str_has_prefix(t, "https://") {
        t.to_owned()
    } else {
        let mut out = "http://".to_owned();
        out.append(t);
        out
    }
}

/// The endpoint handed to the telemetry exporter: the configured value
/// trimmed, or nothing when it is unset or blank, in which case telemetry
/// stays off.
pub fn effective_endpoint(endpoint: &Option<String>) -> (r: Option<String>)
    ensures
        (match endpoint {
            None => r is None,
            Some(e) => if trim_spec(e@).len() == 0 {
                r is None
            } else {
                r matches Some(t) && t@ == trim_spec(e@)
            },
        }),
{
    match endpoint {
        None => None,
        Some(e) => {
            let t = trim_str(e.as_str());
            if t.is_empty() {
                None
            } else {
                Some(t.to_owned())
            }
        },
    }
}

} // verus!
