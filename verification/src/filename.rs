//! Filename policy for dump artifacts.
//!
//! A dump filename is the configured prefix, an underscore, the lowercased
//! signal name, optionally an underscore and a decimal seconds-since-epoch
//! stamp, and the fixed `.dmp` extension. The policy offers no collision
//! protection beyond the stamp: two faults of the same signal in the same
//! second overwrite each other, a documented limitation.
use crate::signal::{spec_signal_name, SignalInfo};
use crate::store::HandlerConfig;
use vstd::prelude::*;
use vstd::string::*;

verus! {

/// Relies on String::push from std: appends the given character to the end
/// of the string.
pub assume_specification[ String::push ](s: &mut String, ch: char)
    ensures
        final (s)@ == old(s)@.push(ch),
;

/// An upper-case ASCII letter mapped to its lower-case form; any other
/// character unchanged.
pub open spec fn lower_char(c: char) -> char {
    if 65 <= c as u32 && c as u32 <= 90 {
        (((c as u32) + 32) as u8) as char
    } else {
        c
    }
}

/// Character-wise ASCII lowercasing.
pub open spec fn lower_seq(s: Seq<char>) -> Seq<char> {
    s.map_values(|c: char| lower_char(c))
}

/// The character of a single decimal digit.
pub open spec fn digit_char(d: nat) -> char {
    ((48 + d) as u8) as char
}

/// The decimal representation of a number, most significant digit first,
/// without leading zeros (a single `'0'` for zero).
pub open spec fn decimal_digits(n: nat) -> Seq<char>
    decreases n,
{
    if n < 10 {
        seq![digit_char(n)]
    } else {
        decimal_digits(n / 10).push(digit_char(n % 10))
    }
}

/// The decimal representation consists of decimal digit characters only:
/// the stamped part of a filename always matches `_<digits>`.
pub proof fn lemma_decimal_digits_are_digits(n: nat)
    ensures
        decimal_digits(n).len() >= 1,
        forall|i: int|
            0 <= i < decimal_digits(n).len() ==> 48 <= #[trigger] decimal_digits(n)[i] as u32
                <= 57,
    decreases n,
{
    if n >= 10 {
        lemma_decimal_digits_are_digits(n / 10);
    }
}

/// The filename the policy derives: `{prefix}_{lowercased signal name}`,
/// `_{seconds}` when stamping is on, then `.dmp`.
pub open spec fn filename_spec(
    prefix: Seq<char>,
    signal_name: Seq<char>,
    append_timestamp: bool,
    timestamp: nat,
) -> Seq<char> {
    let stem = prefix + seq!['_'] + lower_seq(signal_name);
    let stamped = if append_timestamp {
        stem + seq!['_'] + decimal_digits(timestamp)
    } else {
        stem
    };
    stamped + seq!['.', 'd', 'm', 'p']
}

/// Lowercases the upper-case ASCII letters of a string, leaving every other
/// character unchanged.
pub fn lowercase(s: &str) -> (r: String)
    ensures
        r@ == lower_seq(s@),
{
    let n = s.unicode_len();
    let mut out = String::new();
    let mut i: usize = 0;
    while i < n
        invariant
            i <= n,
            n == s@.len(),
            out@ == lower_seq(s@.subrange(0, i as int)),
        decreases n - i,
    {
        let c = s.get_char(i);
        let u: u32 = c as u32;
        let lc: char = if 65 <= u && u <= 90 {
            ((u + 32) as u8) as char
        } else {
            c
        };
        out.push(lc);
        proof {
            assert(s@.subrange(0, i + 1 as int) =~= s@.subrange(0, i as int).push(s@[i as int]));
            assert(lower_seq(s@.subrange(0, i + 1 as int)) =~= lower_seq(
                s@.subrange(0, i as int),
            ).push(lower_char(s@[i as int])));
        }
        i += 1;
    }
    proof {
        assert(s@.subrange(0, n as int) =~= s@);
    }
    out
}

/// Appends the decimal representation of `n` to `out`.
pub fn push_decimal(out: &mut String, n: u64)
    ensures
        final (out)@ == old(out)@ + decimal_digits(n as nat),
    decreases n,
{
    if n >= 10 {
        proof {
            assert(n / 10 < n) by (nonlinear_arith)
                requires
                    n >= 10,
            ;
        }
        push_decimal(out, n / 10);
    }
    let d: u64 = n % 10;
    let c: char = (48u8 + (d as u8)) as char;
    out.push(c);
    proof {
        if n < 10 {
            assert(old(out)@ + decimal_digits(n as nat) =~= old(out)@.push(digit_char(n as nat)));
        } else {
            assert(old(out)@ + decimal_digits(n as nat) =~= (old(out)@ + decimal_digits(
                (n / 10) as nat,
            )).push(digit_char((n % 10) as nat)));
        }
    }
}

/// Derives the output filename from the prefix, the signal name, and the
/// timestamp policy. `timestamp` is only used when `append_timestamp` is set.
pub fn derive_filename(prefix: &str, signal_name: &str, append_timestamp: bool, timestamp: u64) -> (r:
    String)
    ensures
        r@ == filename_spec(prefix@, signal_name@, append_timestamp, timestamp as nat),
{
    let mut out = String::from_str(prefix);
    out.push('_');
    let lowered = lowercase(signal_name);
    out.append(lowered.as_str());
    if append_timestamp {
        out.push('_');
        push_decimal(&mut out, timestamp);
    }
    out.append(".dmp");
    proof {
        reveal_strlit(".dmp");
        assert(".dmp"@ =~= seq!['.', 'd', 'm', 'p']);
        assert(out@ =~= filename_spec(prefix@, signal_name@, append_timestamp, timestamp as nat));
    }
    out
}

/// Generates the dump filename for one captured fault from the installed
/// configuration. `timestamp` is only used when the configuration asks for
/// stamped filenames.
pub fn generate_filename(config: &HandlerConfig, signal_info: &SignalInfo, timestamp: u64) -> (r:
    String)
    ensures
        r@ == filename_spec(
            config.filename_prefix@,
            spec_signal_name(signal_info.signal),
            config.append_timestamp,
            timestamp as nat,
        ),
{
    derive_filename(
        config.filename_prefix.as_str(),
        signal_info.signal_name(),
        config.append_timestamp,
        timestamp,
    )
}

/// Joins a directory and a filename with a single `/` separator.
pub fn join_path(directory: &str, filename: &str) -> (r: String)
    ensures
        r@ == directory@ + seq!['/'] + filename@,
{
    let mut out = String::from_str(directory);
    out.push('/');
    out.append(filename);
    proof {
        assert(out@ =~= directory@ + seq!['/'] + filename@);
    }
    out
}

} // verus!
