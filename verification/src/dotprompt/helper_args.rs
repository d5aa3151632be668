use vstd::prelude::*;

use crate::config::environment::{
    all_digits, digits_value, is_digit, lemma_digits_value_grows, unsigned_digits,
};
use crate::text::{chars_of, push_str, string_of};

verus! {

/// `usize::from_str`: an optional `+` followed by one or more decimal
/// digits, whose value fits.
pub open spec fn parse_usize_spec(s: Seq<char>) -> Option<usize> {
    let d = unsigned_digits(s);
    if d.len() > 0 && all_digits(d) && digits_value(d) <= usize::MAX {
        Some(digits_value(d) as usize)
    } else {
        None
    }
}

/// Reads a decimal number the way `usize::from_str` does.
pub fn parse_usize(s: &str) -> (r: Option<usize>)
    ensures
        r == parse_usize_spec(s@),
{
    let cs = chars_of(s);
    let n = cs.len();
    let start: usize = if n > 0 && cs[0] == '+' {
        1
    } else {
        0
    };
    let ghost d = unsigned_digits(s@);
    assert(d =~= cs@.subrange(start as int, n as int));
    if start == n {
        return None;
    }
    let mut acc: u128 = 0;
    let mut i: usize = start;
    while i < n
        invariant
            cs@ == s@,
            n == cs@.len(),
            start <= i <= n,
            d == cs@.subrange(start as int, n as int),
            d == unsigned_digits(s@),
            forall|j: int| 0 <= j < i - start ==> is_digit(#[trigger] d[j]),
            acc == digits_value(d.take(i - start)),
            acc <= usize::MAX,
        decreases n - i,
    {
        let c = cs[i];
        if !('0' <= c && c <= '9') {
            assert(d[i - start] == c);
            assert(!is_digit(d[i - start]));
            assert(!all_digits(d));
            return None;
        }
        let digit = (c as u32 - '0' as u32) as u128;
        proof {
            let k = i - start;
            assert(d.take(k + 1).drop_last() =~= d.take(k));
            assert(d.take(k + 1).last() == c);
        }
        acc = acc * 10 + digit;
        if acc > usize::MAX as u128 {
            proof {
                let k = i - start + 1;
                assert forall|j: int| 0 <= j < k implies is_digit(#[trigger] d.take(k)[j]) by {
                    if j < k - 1 {
                        assert(d.take(k)[j] == d[j]);
                    }
                }
                if all_digits(d) {
                    lemma_digits_value_grows(d, k);
                    assert(digits_value(d) > usize::MAX);
                }
            }
            return None;
        }
        i = i + 1;
    }
    proof {
        assert(d.take(n - start) =~= d);
    }
    Some(acc as usize)
}

/// The arguments of the `head` helper: a file and how many of its lines.
#[derive(Debug)]
pub struct HeadHelperArguments {
    pub filename: String,
    pub lines: usize,
}

/// The arguments of the `cat` helper: a file.
#[derive(Debug)]
pub struct CatHelperArguments {
    pub filename: String,
}

/// The arguments of the `env` helper: a variable, and what stands for it
/// where it is not set.
#[derive(Debug)]
pub struct EnvHelperArguments {
    pub name: String,
    pub default: Option<String>,
}

pub open spec fn params_view(v: Seq<String>) -> Seq<Seq<char>> {
    v.map_values(|s: String| s@)
}

/// The `head` helper's arguments from its rendered parameters and its
/// `lines` option: the first parameter is the file; `lines` (10 where it is
/// not given) must read as a number.
pub fn head_arguments(params: &Vec<String>, lines: Option<&str>) -> (r: Result<
    HeadHelperArguments,
    String,
>)
    ensures
        params@.len() == 0 ==> (r matches Err(m) && m@ == "filename not specified"@),
        params@.len() > 0 ==> {
            let given = match lines {
                Some(l) => l@,
                None => "10"@,
            };
            match parse_usize_spec(given) {
                Some(n) => r matches Ok(a) && a.filename@ == params@[0]@ && a.lines == n,
                None => r matches Err(m) && m@ == "Expected a positive integer for lines, found "@
                    + given,
            }
        },
{
    if params.len() == 0 {
        return Err(string_of("filename not specified"));
    }
    let filename = string_of(params[0].as_str());
    let nlines = match lines {
        Some(l) => string_of(l),
        None => string_of("10"),
    };
    match parse_usize(nlines.as_str()) {
        Some(n) => Ok(HeadHelperArguments { filename, lines: n }),
        None => {
            let mut m = string_of("Expected a positive integer for lines, found ");
            push_str(&mut m, nlines.as_str());
            Err(m)
        },
    }
}

/// The `cat` helper's arguments: the first parameter is the file.
pub fn cat_arguments(params: &Vec<String>) -> (r: Result<CatHelperArguments, String>)
    ensures
        params@.len() == 0 ==> (r matches Err(m) && m@ == "filename not specified"@),
        params@.len() > 0 ==> (r matches Ok(a) && a.filename@ == params@[0]@),
{
    if params.len() == 0 {
        return Err(string_of("filename not specified"));
    }
    Ok(CatHelperArguments { filename: string_of(params[0].as_str()) })
}

/// The `env` helper's arguments: the first parameter is the variable, the
/// second (or the empty text) what stands for it where it is not set.
pub fn env_arguments(params: &Vec<String>) -> (r: Result<EnvHelperArguments, String>)
    ensures
        params@.len() == 0 ==> (r matches Err(m) && m@ == "env field name not specified"@),
        params@.len() > 0 ==> (r matches Ok(a) && a.name@ == params@[0]@ && (a.default matches Some(
            d,
        ) && d@ == if params@.len() > 1 {
            params@[1]@
        } else {
            Seq::<char>::empty()
        })),
{
    if params.len() == 0 {
        return Err(string_of("env field name not specified"));
    }
    let default = if params.len() > 1 {
        string_of(params[1].as_str())
    } else {
        String::new()
    };
    Ok(EnvHelperArguments { name: string_of(params[0].as_str()), default: Some(default) })
}

} // verus!
