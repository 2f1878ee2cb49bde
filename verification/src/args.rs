//! Validation of command-line values and default log names.

use vstd::prelude::*;

use crate::strings::replace_seq;

verus! {

/// The numeric value of a sequence of decimal digit characters, most
/// significant first.
pub open spec fn dec_digits_value(s: Seq<char>) -> int
    decreases s.len(),
{
    if s.len() == 0 {
        0
    } else {
        dec_digits_value(s.drop_last()) * 10 + (s.last() as u32 - 0x30)
    }
}

/// Whether the sequence is one or more decimal digit characters.
pub open spec fn all_dec_digits(s: Seq<char>) -> bool {
    s.len() > 0 && forall|i: int| 0 <= i < s.len() ==> 0x30 <= #[trigger] s[i] as u32 <= 0x39
}

/// What parsing an unsigned decimal count accepts: an optional leading
/// plus sign, then digits, with a value that the machine can hold.
pub open spec fn spec_parse_usize(s: Seq<char>) -> Option<int> {
    let ds = if s.len() > 0 && s[0] == '+' {
        s.skip(1)
    } else {
        s
    };
    if all_dec_digits(ds) && dec_digits_value(ds) <= usize::MAX {
        Some(dec_digits_value(ds))
    } else {
        None
    }
}

proof fn lemma_digits_nonneg(s: Seq<char>)
    requires
        forall|i: int| 0 <= i < s.len() ==> 0x30 <= #[trigger] s[i] as u32 <= 0x39,
    ensures
        dec_digits_value(s) >= 0,
    decreases s.len(),
{
    if s.len() > 0 {
        lemma_digits_nonneg(s.drop_last());
    }
}

/// Appending digits never shrinks the value.
proof fn lemma_digits_prefix(s: Seq<char>, i: int)
    requires
        forall|j: int| 0 <= j < s.len() ==> 0x30 <= #[trigger] s[j] as u32 <= 0x39,
        0 <= i <= s.len(),
    ensures
        dec_digits_value(s) >= dec_digits_value(s.take(i)),
    decreases s.len() - i,
{
    if i < s.len() {
        lemma_digits_prefix(s, i + 1);
        assert(s.take(i + 1).drop_last() =~= s.take(i));
        assert(s.take(i + 1).last() == s[i]);
        lemma_digits_nonneg(s.take(i));
    } else {
        assert(s.take(i) =~= s);
    }
}

/// Parses an unsigned decimal count, as `usize::from_str_radix` with
/// radix ten accepts it: an optional leading plus sign, then one or
/// more digits, rejecting values the machine cannot hold.
pub fn parse_usize_dec(s: &str) -> (r: Option<usize>)
    ensures
        match r {
            Some(v) => spec_parse_usize(s@) == Some(v as int),
            None => spec_parse_usize(s@) is None,
        },
{
    let len = s.unicode_len();
    let start: usize = if len > 0 && s.get_char(0) == '+' {
        1
    } else {
        0
    };
    let ghost ds: Seq<char> = if s@.len() > 0 && s@[0] == '+' {
        s@.skip(1)
    } else {
        s@
    };
    proof {
        assert(ds.len() == len - start);
    }
    if start == len {
        return None;
    }
    let mut acc: usize = 0;
    let mut i: usize = start;
    while i < len
        invariant
            start <= i <= len,
            len == s@.len(),
            start == 0 || start == 1,
            ds == (if s@.len() > 0 && s@[0] == '+' {
                s@.skip(1)
            } else {
                s@
            }),
            ds.len() == len - start,
            forall|j: int| 0 <= j < i - start ==> 0x30 <= #[trigger] ds[j] as u32 <= 0x39,
            acc == dec_digits_value(ds.take(i - start)),
        decreases len - i,
    {
        let c = s.get_char(i);
        let u = c as u32;
        proof {
            assert(ds[i - start] == s@[i as int]);
        }
        if !(0x30 <= u && u <= 0x39) {
            proof {
                if all_dec_digits(ds) {
                    assert(0x30 <= ds[i - start] as u32 <= 0x39);
                }
            }
            return None;
        }
        let d = (u - 0x30) as usize;
        let limit = (usize::MAX - d) / 10;
        proof {
            vstd::arithmetic::div_mod::lemma_fundamental_div_mod((usize::MAX - d) as int, 10);
        }
        if acc > limit {
            proof {
                // The value grows past the machine limit here and never
                // shrinks again.
                assert(acc * 10 >= (limit + 1) * 10) by (nonlinear_arith)
                    requires
                        acc >= limit + 1,
                ;
                assert(ds.take(i - start + 1).drop_last() =~= ds.take(i - start));
                assert(ds.take(i - start + 1).last() == ds[i - start]);
                assert(dec_digits_value(ds.take(i - start + 1)) > usize::MAX);
                if all_dec_digits(ds) {
                    lemma_digits_prefix(ds, i - start + 1);
                }
            }
            return None;
        }
        proof {
            assert(acc * 10 <= limit * 10) by (nonlinear_arith)
                requires
                    acc <= limit,
            ;
            assert(ds.take(i - start + 1).drop_last() =~= ds.take(i - start));
            assert(ds.take(i - start + 1).last() == ds[i - start]);
        }
        acc = acc * 10 + d;
        i += 1;
    }
    proof {
        assert(ds.take(len - start) =~= ds);
        assert(all_dec_digits(ds));
    }
    Some(acc)
}

/// Accepts any non-empty simulation spec file path.
pub fn validate_simulation_spec(simulation_spec_file: &String) -> (r: Result<(), String>)
    ensures
        r is Ok <==> simulation_spec_file@.len() > 0,
        r matches Err(m) ==> m@ == "Specified simulation spec file path is empty"@,
{
    if simulation_spec_file.as_str().unicode_len() == 0 {
        return Err("Specified simulation spec file path is empty".to_owned());
    }
    Ok(())
}

/// Accepts a thread count that parses as an unsigned decimal number.
pub fn validate_thread_count(thread_count: &String) -> (r: Result<(), String>)
    ensures
        r is Ok <==> spec_parse_usize(thread_count@) is Some,
        r matches Err(m) ==> m@ == "Invalid thread count specified: "@ + thread_count@,
{
    match parse_usize_dec(thread_count.as_str()) {
        Some(_) => Ok(()),
        None => {
            let mut msg = "Invalid thread count specified: ".to_owned();
            msg.append(thread_count.as_str());
            Err(msg)
        },
    }
}

/// The default log filename used when logging is requested without a
/// filename.
pub fn synthesize_datetime_log_filename(datetime: &str) -> (r: String)
    ensures
        r@ == "aitios-log-"@ + datetime@ + ".log"@,
{
    let mut out = "aitios-log-".to_owned();
    out.append(datetime);
    out.append(".log");
    out
}

/// A log path pattern with its `{datetime}` token substituted.
pub fn substitute_log_pattern(pattern: &str, datetime: &str) -> (r: String)
    ensures
        r@ == replace_seq(pattern@, "{datetime}"@, datetime@),
{
    proof {
        reveal_strlit("{datetime}");
    }
    crate::strings::replace_all(pattern, "{datetime}", datetime)
}

} // verus!
