use vstd::prelude::*;

use crate::text::{chars_of, str_eq};

verus! {

/// One variable of the process environment, as read at the edge of the
/// program. `float_bits` is the bit pattern of the variable's value read as a
/// single-precision number, when it reads as one.
pub struct EnvVar {
    pub name: String,
    pub value: String,
    pub float_bits: Option<u32>,
}

pub struct EnvVarView {
    pub name: Seq<char>,
    pub value: Seq<char>,
    pub float_bits: Option<u32>,
}

impl View for EnvVar {
    type V = EnvVarView;

    open spec fn view(&self) -> EnvVarView {
        EnvVarView { name: self.name@, value: self.value@, float_bits: self.float_bits }
    }
}

/// A snapshot of the process environment.
pub struct Environment {
    pub vars: Vec<EnvVar>,
}

impl View for Environment {
    type V = Seq<EnvVarView>;

    open spec fn view(&self) -> Seq<EnvVarView> {
        self.vars@.map_values(|v: EnvVar| v@)
    }
}

/// The first variable of `env` named `name`.
pub open spec fn env_find(env: Seq<EnvVarView>, name: Seq<char>) -> Option<EnvVarView>
    decreases env.len(),
{
    if env.len() == 0 {
        None
    } else {
        match env_find(env.drop_last(), name) {
            Some(v) => Some(v),
            None => if env.last().name == name {
                Some(env.last())
            } else {
                None
            },
        }
    }
}

pub open spec fn is_digit(c: char) -> bool {
    '0' <= c <= '9'
}

/// The number that a run of decimal digits writes.
pub open spec fn digits_value(d: Seq<char>) -> nat
    decreases d.len(),
{
    if d.len() == 0 {
        0
    } else {
        digits_value(d.drop_last()) * 10 + (d.last() as nat - '0' as nat) as nat
    }
}

/// `u32::from_str`: an optional `+` followed by one or more decimal digits,
/// whose value fits in 32 bits.
pub open spec fn parse_u32_spec(s: Seq<char>) -> Option<u32> {
    let d = unsigned_digits(s);
    if d.len() > 0 && all_digits(d) && digits_value(d) <= u32::MAX {
        Some(digits_value(d) as u32)
    } else {
        None
    }
}

/// The text after an optional leading `+`.
pub open spec fn unsigned_digits(s: Seq<char>) -> Seq<char> {
    if s.len() > 0 && s[0] == '+' {
        s.drop_first()
    } else {
        s
    }
}

pub open spec fn all_digits(d: Seq<char>) -> bool {
    forall|i: int| 0 <= i < d.len() ==> is_digit(#[trigger] d[i])
}

/// `bool::from_str`: exactly `true` or `false`.
pub open spec fn parse_bool_spec(s: Seq<char>) -> Option<bool> {
    if s == "true"@ {
        Some(true)
    } else if s == "false"@ {
        Some(false)
    } else {
        None
    }
}

pub proof fn lemma_digits_value_grows(d: Seq<char>, k: int)
    requires
        0 <= k <= d.len(),
        forall|i: int| 0 <= i < d.len() ==> is_digit(#[trigger] d[i]),
    ensures
        digits_value(d.take(k)) <= digits_value(d),
    decreases d.len(),
{
    if k < d.len() {
        let t = d.drop_last();
        assert(forall|i: int| 0 <= i < t.len() ==> t[i] == d[i]);
        lemma_digits_value_grows(t, k);
        assert(t.take(k) =~= d.take(k));
        assert(is_digit(d[d.len() - 1]));
    } else {
        assert(d.take(k) =~= d);
    }
}

/// Reads a decimal number the way `u32::from_str` does.
pub fn parse_u32(s: &str) -> (r: Option<u32>)
    ensures
        r == parse_u32_spec(s@),
{
    let cs = chars_of(s);
    let n = cs.len();
    let start: usize = if n > 0 && cs[0] == '+' {
        1
    } else {
        0
    };
    let ghost d = unsigned_digits(s@);
    assert(d =~= cs@.subrange(start as int, n as int));
    if start == n {
        return None;
    }
    let mut acc: u64 = 0;
    let mut i: usize = start;
    while i < n
        invariant
            cs@ == s@,
            n == cs@.len(),
            start <= i <= n,
            d == cs@.subrange(start as int, n as int),
            d == unsigned_digits(s@),
            forall|j: int| 0 <= j < i - start ==> is_digit(#[trigger] d[j]),
            acc == digits_value(d.take(i - start)),
            acc <= u32::MAX,
        decreases n - i,
    {
        let c = cs[i];
        if !('0' <= c && c <= '9') {
            assert(d[i - start] == c);
            assert(!is_digit(d[i - start]));
            assert(!all_digits(d));
            return None;
        }
        let digit = (c as u32 - '0' as u32) as u64;
        proof {
            let k = i - start;
            assert(d.take(k + 1).drop_last() =~= d.take(k));
            assert(d.take(k + 1).last() == c);
        }
        acc = acc * 10 + digit;
        if acc > 0xffff_ffff {
            proof {
                let k = i - start + 1;
                assert forall|j: int| 0 <= j < k implies is_digit(#[trigger] d.take(k)[j]) by {
                    if j < k - 1 {
                        assert(d.take(k)[j] == d[j]);
                    }
                }
                if all_digits(d) {
                    lemma_digits_value_grows(d, k);
                    assert(digits_value(d) > u32::MAX);
                }
            }
            return None;
        }
        i = i + 1;
    }
    proof {
        assert(d.take(n - start) =~= d);
    }
    Some(acc as u32)
}

/// Reads `true` or `false` the way `bool::from_str` does.
pub fn parse_bool(s: &str) -> (r: Option<bool>)
    ensures
        r == parse_bool_spec(s@),
{
    if str_eq(s, "true") {
        Some(true)
    } else if str_eq(s, "false") {
        Some(false)
    } else {
        None
    }
}

impl Environment {
    /// The first variable named `name`, if the snapshot holds one.
    pub fn find(&self, name: &str) -> (r: Option<&EnvVar>)
        ensures
            r matches Some(v) ==> env_find(self@, name@) == Some(v@),
            r is None ==> env_find(self@, name@) is None,
    {
        let mut i: usize = 0;
        while i < self.vars.len()
            invariant
                i <= self.vars@.len(),
                env_find(self@.take(i as int), name@) is None,
            decreases self.vars@.len() - i,
        {
            proof {
                assert(self@.take(i + 1).drop_last() =~= self@.take(i as int));
            }
            if str_eq(self.vars[i].name.as_str(), name) {
                proof {
                    lemma_env_find_prefix(self@, name@, i + 1);
                }
                return Some(&self.vars[i]);
            }
            i = i + 1;
        }
        proof {
            assert(self@.take(self@.len() as int) =~= self@);
        }
        None
    }
}

/// Finding in a prefix that already holds the name gives the same variable as
/// finding in the whole snapshot.
pub proof fn lemma_env_find_prefix(env: Seq<EnvVarView>, name: Seq<char>, k: int)
    requires
        0 <= k <= env.len(),
        env_find(env.take(k), name) is Some,
    ensures
        env_find(env, name) == env_find(env.take(k), name),
    decreases env.len(),
{
    if k < env.len() {
        assert(env.drop_last().take(k) =~= env.take(k));
        lemma_env_find_prefix(env.drop_last(), name, k);
    } else {
        assert(env.take(k) =~= env);
    }
}

} // verus!
