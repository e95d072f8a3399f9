//! Fixed paths, model identity, and the gateway port.
//!
//! The per-user layout is fixed: everything lives under `.moose` in the home
//! directory. The joins are pure string work; the shell supplies the home
//! directory. The gateway port comes from an environment variable when it
//! parses as a port number, else from the default; the parse itself is
//! verified against a decimal-numeral specification.

use vstd::prelude::*;

verus! {

use vstd::string::StringExecFns;
use vstd::string::StrSliceExecFns;

/// The model file's deterministic name.
pub const MODEL_FILENAME: &'static str = "Ministral-3-14B-Reasoning-2512-Q4_K_M.gguf";

/// Where the model is fetched from.
pub const MODEL_URL: &'static str =
    "https://huggingface.co/mistralai/Ministral-3-14B-Reasoning-2512-GGUF/resolve/main/Ministral-3-14B-Reasoning-2512-Q4_K_M.gguf";

/// A present model file must be larger than this to count as downloaded.
pub const MODEL_MIN_SIZE: u64 = 7_500_000_000;

/// The gateway's port when the environment does not override it.
pub const DEFAULT_GATEWAY_PORT: u16 = 18789;

/// The application-data root: `<home>/.moose`.
pub fn moose_dir(home: &str) -> (r: String)
    ensures
        r@ == home@ + "/.moose"@,
{
    let mut r = home.to_owned();
    r.append("/.moose");
    r
}

/// The configuration document's fixed path: `<home>/.moose/config.json`.
pub fn config_path(home: &str) -> (r: String)
    ensures
        r@ == home@ + "/.moose/config.json"@,
{
    let mut r = home.to_owned();
    r.append("/.moose/config.json");
    r
}

/// The model file's fixed path:
/// `<home>/.moose/models/llama-cpp/<model file name>`.
pub fn model_path(home: &str) -> (r: String)
    ensures
        r@ == home@ + "/.moose/models/llama-cpp/"@ + MODEL_FILENAME@,
{
    let mut r = home.to_owned();
    r.append("/.moose/models/llama-cpp/");
    r.append(MODEL_FILENAME);
    r
}

/// A decimal digit.
pub open spec fn is_dec_digit(c: char) -> bool {
    '0' <= c && c <= '9'
}

/// The numeric value of a digit character.
pub open spec fn digit_val(c: char) -> int {
    c as int - '0' as int
}

/// Every character of `s` is a decimal digit.
pub open spec fn all_digits(s: Seq<char>) -> bool {
    forall|i: int| 0 <= i < s.len() ==> is_dec_digit(#[trigger] s[i])
}

/// The value of a digit string, most significant digit first.
pub open spec fn dec_val(s: Seq<char>) -> int
    decreases s.len(),
{
    if s.len() == 0 {
        0
    } else {
        dec_val(s.drop_last()) * 10 + digit_val(s.last())
    }
}

/// The digits of a numeral: the whole string, or what follows one optional
/// leading plus sign.
pub open spec fn numeral_digits(s: Seq<char>) -> Seq<char> {
    if s.len() > 0 && s[0] == '+' {
        s.subrange(1, s.len() as int)
    } else {
        s
    }
}

/// Whether `s` is a numeral a 16-bit port accepts: at least one digit after
/// the optional sign, digits only, value at most 65535.
pub open spec fn is_u16_numeral(s: Seq<char>) -> bool {
    let t = numeral_digits(s);
    t.len() > 0 && all_digits(t) && dec_val(t) <= 65535
}

proof fn lemma_dec_val_nonneg(s: Seq<char>)
    requires
        all_digits(s),
    ensures
        dec_val(s) >= 0,
    decreases s.len(),
{
    if s.len() > 0 {
        assert(all_digits(s.drop_last()));
        lemma_dec_val_nonneg(s.drop_last());
    }
}

/// A digit string's value is at least any prefix's value.
proof fn lemma_dec_val_prefix(s: Seq<char>, k: int)
    requires
        0 <= k <= s.len(),
        all_digits(s),
    ensures
        dec_val(s.take(k)) <= dec_val(s),
    decreases s.len() - k,
{
    if k == s.len() {
        assert(s.take(k) =~= s);
    } else {
        lemma_dec_val_prefix(s, k + 1);
        assert(s.take(k + 1).drop_last() =~= s.take(k));
        assert(s.take(k + 1).last() == s[k]);
        assert(all_digits(s.take(k)));
        lemma_dec_val_nonneg(s.take(k));
        assert(dec_val(s.take(k + 1)) == dec_val(s.take(k)) * 10 + digit_val(s[k]));
    }
}

/// Parse a 16-bit unsigned decimal numeral, exactly as a port number is
/// read: an optional leading plus, then one or more digits, value at most
/// 65535; anything else is rejected.
pub fn parse_u16(s: &str) -> (r: Option<u16>)
    ensures
        is_u16_numeral(s@) ==> r == Some(dec_val(numeral_digits(s@)) as u16),
        !is_u16_numeral(s@) ==> r is None,
{
    let len = s.unicode_len();
    let start: usize = if len > 0 && s.get_char(0) == '+' {
        1
    } else {
        0
    };
    assert(numeral_digits(s@) =~= s@.subrange(start as int, len as int));
    if start >= len {
        return Option::None;
    }
    let ghost t = s@.subrange(start as int, len as int);
    let mut i: usize = start;
    let mut acc: u32 = 0;
    while i < len
        invariant
            start <= i <= len,
            start < len,
            len == s@.len(),
            t == s@.subrange(start as int, len as int),
            t == numeral_digits(s@),
            all_digits(s@.subrange(start as int, i as int)),
            acc == dec_val(s@.subrange(start as int, i as int)),
            acc <= 65535,
        decreases len - i,
    {
        let c = s.get_char(i);
        if !('0' <= c && c <= '9') {
            proof {
                assert(t[i - start] == s@[i as int]);
                assert(!all_digits(t));
            }
            return Option::None;
        }
        let d: u32 = (c as u32) - ('0' as u32);
        let next: u32 = acc * 10 + d;
        proof {
            assert(s@.subrange(start as int, i + 1).drop_last() =~= s@.subrange(
                start as int,
                i as int,
            ));
            assert(s@.subrange(start as int, i + 1).last() == s@[i as int]);
        }
        if next > 65535 {
            proof {
                if is_u16_numeral(s@) {
                    assert(s@.subrange(start as int, i + 1) =~= t.take(i + 1 - start));
                    lemma_dec_val_prefix(t, i + 1 - start);
                }
            }
            return Option::None;
        }
        acc = next;
        i = i + 1;
    }
    proof {
        assert(s@.subrange(start as int, i as int) =~= t);
    }
    Option::Some(acc as u16)
}

/// The gateway port an environment value selects: the value itself when it
/// is a port numeral, the default otherwise.
pub open spec fn spec_gateway_port(env: Seq<char>) -> u16 {
    if is_u16_numeral(env) {
        dec_val(numeral_digits(env)) as u16
    } else {
        DEFAULT_GATEWAY_PORT
    }
}

/// The gateway's port, given the port environment variable's value (`None`
/// when the variable is unset or unreadable): the parsed value when it is a
/// valid port numeral, else the default. Supervisor and child both use this.
pub fn gateway_port(env: Option<&String>) -> (p: u16)
    ensures
        env is None ==> p == DEFAULT_GATEWAY_PORT,
        env matches Some(s) ==> p == spec_gateway_port(s@),
{
    match env {
        Option::None => DEFAULT_GATEWAY_PORT,
        Option::Some(s) => match parse_u16(s.as_str()) {
            Option::Some(v) => v,
            Option::None => DEFAULT_GATEWAY_PORT,
        },
    }
}

} // verus!
