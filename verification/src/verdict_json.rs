//! The verdict's JSON rendering: the exact byte text written for a
//! `JudgeResult`, a parser of that format at the specification level, and
//! the proof that parsing a rendered verdict yields the record back.

use vstd::prelude::*;
use vstd::string::StringSliceAdditionalSpecFns;

use crate::data::{JudgeResult, JudgeState};

verus! {

/// The bytes of an ASCII character sequence, one byte per character.
pub open spec fn ascii_bytes(s: Seq<char>) -> Seq<u8> {
    Seq::new(s.len(), |i: int| s[i] as u8)
}

/// Decimal digits of `n`, most significant first, without leading zeros.
pub open spec fn dec_digits(n: nat) -> Seq<u8>
    decreases n,
{
    if n < 10 {
        seq![(48 + n) as u8]
    } else {
        dec_digits(n / 10) + seq![(48 + n % 10) as u8]
    }
}

/// Decimal rendering of a possibly negative number: a minus sign followed
/// by the digits of its absolute value.
pub open spec fn int_digits(v: int) -> Seq<u8> {
    if v < 0 {
        seq![45u8] + dec_digits((-v) as nat)
    } else {
        dec_digits(v as nat)
    }
}

/// The verdict state's name as it appears in the document.
pub open spec fn state_name(s: JudgeState) -> Seq<u8> {
    match s {
        JudgeState::SystemError => ascii_bytes("SystemError"@),
        JudgeState::MemoryLimitExceeded => ascii_bytes("MemoryLimitExceeded"@),
        JudgeState::RealTimeLimitExceeded => ascii_bytes("RealTimeLimitExceeded"@),
        JudgeState::CpuTimeLimitExceeded => ascii_bytes("CpuTimeLimitExceeded"@),
        JudgeState::RuntimeError => ascii_bytes("RuntimeError"@),
        JudgeState::Accepted => ascii_bytes("Accepted"@),
    }
}

/// The verdict's JSON document: an object with two-space indentation and
/// the fields in the order cpu_time, real_time, memory, state, exit_code.
/// The concatenation nests to the right, so each parsing step peels one
/// piece off the front.
pub open spec fn render_verdict(jr: JudgeResult) -> Seq<u8> {
    ascii_bytes("{\n  \"cpu_time\": "@) + (dec_digits(jr.cpu_time as nat) + (ascii_bytes(
        ",\n  \"real_time\": "@,
    ) + (dec_digits(jr.real_time as nat) + (ascii_bytes(",\n  \"memory\": "@) + (dec_digits(
        jr.memory as nat,
    ) + (ascii_bytes(",\n  \"state\": \""@) + (state_name(jr.state) + (ascii_bytes(
        "\",\n  \"exit_code\": "@,
    ) + (int_digits(jr.exit_code as int) + ascii_bytes("\n}"@))))))))))
}

// ---------------------------------------------------------------------------
// A parser of the rendered format, at the specification level.
// ---------------------------------------------------------------------------

/// An ASCII decimal digit.
pub open spec fn is_digit(b: u8) -> bool {
    48 <= b && b <= 57
}

/// The length of the longest digit prefix.
pub open spec fn digit_count(s: Seq<u8>) -> int
    decreases s.len(),
{
    if s.len() == 0 || !is_digit(s[0]) {
        0
    } else {
        1 + digit_count(s.drop_first())
    }
}

/// The number a digit string denotes.
pub open spec fn digits_value(s: Seq<u8>) -> int
    decreases s.len(),
{
    if s.len() == 0 {
        0
    } else {
        digits_value(s.drop_last()) * 10 + s.last() - 48
    }
}

/// The rest of `s` after the literal `lit`, if `s` starts with it.
pub open spec fn strip_prefix(s: Seq<u8>, lit: Seq<u8>) -> Option<Seq<u8>> {
    if lit.len() <= s.len() && s.take(lit.len() as int) == lit {
        Some(s.skip(lit.len() as int))
    } else {
        None
    }
}

/// Reads a decimal number that fits in a `u64`.
pub open spec fn parse_u64(s: Seq<u8>) -> Option<(u64, Seq<u8>)> {
    let k = digit_count(s);
    if k == 0 {
        None
    } else if digits_value(s.take(k)) > u64::MAX as int {
        None
    } else {
        Some((digits_value(s.take(k)) as u64, s.skip(k)))
    }
}

/// Reads a verdict state's name.
pub open spec fn parse_state(s: Seq<u8>) -> Option<(JudgeState, Seq<u8>)> {
    match strip_prefix(s, state_name(JudgeState::SystemError)) {
        Some(r) => Some((JudgeState::SystemError, r)),
        None => match strip_prefix(s, state_name(JudgeState::MemoryLimitExceeded)) {
            Some(r) => Some((JudgeState::MemoryLimitExceeded, r)),
            None => match strip_prefix(s, state_name(JudgeState::RealTimeLimitExceeded)) {
                Some(r) => Some((JudgeState::RealTimeLimitExceeded, r)),
                None => match strip_prefix(s, state_name(JudgeState::CpuTimeLimitExceeded)) {
                    Some(r) => Some((JudgeState::CpuTimeLimitExceeded, r)),
                    None => match strip_prefix(s, state_name(JudgeState::RuntimeError)) {
                        Some(r) => Some((JudgeState::RuntimeError, r)),
                        None => match strip_prefix(s, state_name(JudgeState::Accepted)) {
                            Some(r) => Some((JudgeState::Accepted, r)),
                            None => None,
                        },
                    },
                },
            },
        },
    }
}

/// Reads a decimal number, possibly with a minus sign, that fits in an `i32`.
pub open spec fn parse_i32(s: Seq<u8>) -> Option<(i32, Seq<u8>)> {
    if s.len() > 0 && s[0] == 45u8 {
        match parse_u64(s.drop_first()) {
            Some((v, r)) => if v <= 2147483648u64 {
                Some(((-(v as int)) as i32, r))
            } else {
                None
            },
            None => None,
        }
    } else {
        match parse_u64(s) {
            Some((v, r)) => if v <= 2147483647u64 {
                Some((v as i32, r))
            } else {
                None
            },
            None => None,
        }
    }
}

/// Reads a whole rendered verdict back into its record.
pub open spec fn parse_verdict(s: Seq<u8>) -> Option<JudgeResult> {
    match strip_prefix(s, ascii_bytes("{\n  \"cpu_time\": "@)) {
        None => None,
        Some(s1) => match parse_u64(s1) {
            None => None,
            Some((cpu_time, s2)) => match strip_prefix(s2, ascii_bytes(",\n  \"real_time\": "@)) {
                None => None,
                Some(s3) => match parse_u64(s3) {
                    None => None,
                    Some((real_time, s4)) => match strip_prefix(
                        s4,
                        ascii_bytes(",\n  \"memory\": "@),
                    ) {
                        None => None,
                        Some(s5) => match parse_u64(s5) {
                            None => None,
                            Some((memory, s6)) => match strip_prefix(
                                s6,
                                ascii_bytes(",\n  \"state\": \""@),
                            ) {
                                None => None,
                                Some(s7) => match parse_state(s7) {
                                    None => None,
                                    Some((state, s8)) => match strip_prefix(
                                        s8,
                                        ascii_bytes("\",\n  \"exit_code\": "@),
                                    ) {
                                        None => None,
                                        Some(s9) => match parse_i32(s9) {
                                            None => None,
                                            Some((exit_code, s10)) => match strip_prefix(
                                                s10,
                                                ascii_bytes("\n}"@),
                                            ) {
                                                None => None,
                                                Some(rest) => if rest.len() == 0 {
                                                    Some(
                                                        JudgeResult {
                                                            cpu_time,
                                                            real_time,
                                                            memory,
                                                            state,
                                                            exit_code,
                                                        },
                                                    )
                                                } else {
                                                    None
                                                },
                                            },
                                        },
                                    },
                                },
                            },
                        },
                    },
                },
            },
        },
    }
}

// ---------------------------------------------------------------------------
// Round trip: parsing a rendered verdict yields the record back.
// ---------------------------------------------------------------------------

proof fn lemma_strip_prefix_of_concat(lit: Seq<u8>, rest: Seq<u8>)
    ensures
        strip_prefix(lit + rest, lit) == Some(rest),
{
    assert((lit + rest).take(lit.len() as int) =~= lit);
    assert((lit + rest).skip(lit.len() as int) =~= rest);
}

proof fn lemma_strip_prefix_mismatch(s: Seq<u8>, lit: Seq<u8>, i: int)
    requires
        0 <= i < lit.len(),
        i < s.len(),
        s[i] != lit[i],
    ensures
        strip_prefix(s, lit) is None,
{
    if lit.len() <= s.len() && s.take(lit.len() as int) == lit {
        assert(s.take(lit.len() as int)[i] == s[i]);
        assert(false);
    }
}

proof fn lemma_dec_digits_are_digits(n: nat)
    ensures
        dec_digits(n).len() >= 1,
        forall|i: int| 0 <= i < dec_digits(n).len() ==> is_digit(#[trigger] dec_digits(n)[i]),
    decreases n,
{
    if n < 10 {
    } else {
        lemma_dec_digits_are_digits(n / 10);
        assert forall|i: int| 0 <= i < dec_digits(n).len() implies is_digit(
            #[trigger] dec_digits(n)[i],
        ) by {
            if i < dec_digits(n / 10).len() {
                assert(dec_digits(n)[i] == dec_digits(n / 10)[i]);
            } else {
                assert(dec_digits(n)[i] == (48 + n % 10) as u8);
            }
        }
    }
}

proof fn lemma_digit_count_of_concat(d: Seq<u8>, rest: Seq<u8>)
    requires
        forall|i: int| 0 <= i < d.len() ==> is_digit(#[trigger] d[i]),
        rest.len() > 0,
        !is_digit(rest[0]),
    ensures
        digit_count(d + rest) == d.len(),
    decreases d.len(),
{
    if d.len() == 0 {
        assert(d + rest =~= rest);
    } else {
        assert((d + rest)[0] == d[0]);
        assert((d + rest).drop_first() =~= d.drop_first() + rest);
        lemma_digit_count_of_concat(d.drop_first(), rest);
    }
}

proof fn lemma_digits_value_of_digits(n: nat)
    ensures
        digits_value(dec_digits(n)) == n,
    decreases n,
{
    if n < 10 {
        assert(dec_digits(n) =~= seq![(48 + n) as u8]);
        assert(dec_digits(n).drop_last() =~= Seq::<u8>::empty());
        assert(digits_value(Seq::<u8>::empty()) == 0);
        assert(dec_digits(n).last() == (48 + n) as u8);
        assert((48 + n) as u8 == 48 + n);
    } else {
        lemma_digits_value_of_digits(n / 10);
        assert(dec_digits(n).drop_last() =~= dec_digits(n / 10));
        assert(dec_digits(n).last() == (48 + n % 10) as u8);
        assert((48 + n % 10) as u8 == 48 + n % 10);
        assert(n == (n / 10) * 10 + n % 10);
    }
}

proof fn lemma_parse_u64_of_concat(n: u64, rest: Seq<u8>)
    requires
        rest.len() > 0,
        !is_digit(rest[0]),
    ensures
        parse_u64(dec_digits(n as nat) + rest) == Some((n, rest)),
{
    let d = dec_digits(n as nat);
    lemma_dec_digits_are_digits(n as nat);
    lemma_digit_count_of_concat(d, rest);
    lemma_digits_value_of_digits(n as nat);
    assert((d + rest).take(d.len() as int) =~= d);
    assert((d + rest).skip(d.len() as int) =~= rest);
}

proof fn lemma_state_name_facts()
    ensures
        state_name(JudgeState::SystemError).len() == 11,
        state_name(JudgeState::SystemError)[0] == 83u8,
        state_name(JudgeState::MemoryLimitExceeded).len() == 19,
        state_name(JudgeState::MemoryLimitExceeded)[0] == 77u8,
        state_name(JudgeState::RealTimeLimitExceeded).len() == 21,
        state_name(JudgeState::RealTimeLimitExceeded)[0] == 82u8,
        state_name(JudgeState::RealTimeLimitExceeded)[1] == 101u8,
        state_name(JudgeState::CpuTimeLimitExceeded).len() == 20,
        state_name(JudgeState::CpuTimeLimitExceeded)[0] == 67u8,
        state_name(JudgeState::RuntimeError).len() == 12,
        state_name(JudgeState::RuntimeError)[0] == 82u8,
        state_name(JudgeState::RuntimeError)[1] == 117u8,
        state_name(JudgeState::Accepted).len() == 8,
        state_name(JudgeState::Accepted)[0] == 65u8,
{
    reveal_strlit("SystemError");
    reveal_strlit("MemoryLimitExceeded");
    reveal_strlit("RealTimeLimitExceeded");
    reveal_strlit("CpuTimeLimitExceeded");
    reveal_strlit("RuntimeError");
    reveal_strlit("Accepted");
}

proof fn lemma_parse_state_of_concat(st: JudgeState, rest: Seq<u8>)
    ensures
        parse_state(state_name(st) + rest) == Some((st, rest)),
{
    lemma_state_name_facts();
    let s = state_name(st) + rest;
    let nm_sys = state_name(JudgeState::SystemError);
    let nm_mem = state_name(JudgeState::MemoryLimitExceeded);
    let nm_rtl = state_name(JudgeState::RealTimeLimitExceeded);
    let nm_cpu = state_name(JudgeState::CpuTimeLimitExceeded);
    let nm_run = state_name(JudgeState::RuntimeError);
    lemma_strip_prefix_of_concat(state_name(st), rest);
    match st {
        JudgeState::SystemError => {},
        JudgeState::MemoryLimitExceeded => {
            lemma_strip_prefix_mismatch(s, nm_sys, 0);
        },
        JudgeState::RealTimeLimitExceeded => {
            lemma_strip_prefix_mismatch(s, nm_sys, 0);
            lemma_strip_prefix_mismatch(s, nm_mem, 0);
        },
        JudgeState::CpuTimeLimitExceeded => {
            lemma_strip_prefix_mismatch(s, nm_sys, 0);
            lemma_strip_prefix_mismatch(s, nm_mem, 0);
            lemma_strip_prefix_mismatch(s, nm_rtl, 0);
        },
        JudgeState::RuntimeError => {
            lemma_strip_prefix_mismatch(s, nm_sys, 0);
            lemma_strip_prefix_mismatch(s, nm_mem, 0);
            lemma_strip_prefix_mismatch(s, nm_rtl, 1);
            lemma_strip_prefix_mismatch(s, nm_cpu, 0);
        },
        JudgeState::Accepted => {
            lemma_strip_prefix_mismatch(s, nm_sys, 0);
            lemma_strip_prefix_mismatch(s, nm_mem, 0);
            lemma_strip_prefix_mismatch(s, nm_rtl, 0);
            lemma_strip_prefix_mismatch(s, nm_cpu, 0);
            lemma_strip_prefix_mismatch(s, nm_run, 0);
        },
    }
}

proof fn lemma_parse_i32_of_concat(n: i32, rest: Seq<u8>)
    requires
        rest.len() > 0,
        !is_digit(rest[0]),
    ensures
        parse_i32(int_digits(n as int) + rest) == Some((n, rest)),
{
    if n >= 0 {
        lemma_parse_u64_of_concat(n as u64, rest);
        lemma_dec_digits_are_digits(n as nat);
        let s = int_digits(n as int) + rest;
        assert(s[0] == dec_digits(n as nat)[0]);
        assert(s[0] != 45u8);
    } else {
        let m: u64 = (-(n as int)) as u64;
        lemma_parse_u64_of_concat(m, rest);
        let s = int_digits(n as int) + rest;
        assert(s[0] == 45u8);
        assert(s.drop_first() =~= dec_digits(m as nat) + rest);
    }
}

/// Parsing a rendered verdict yields the same record: the judge's JSON
/// output round-trips.
pub proof fn lemma_verdict_round_trip(jr: JudgeResult)
    ensures
        parse_verdict(render_verdict(jr)) == Some(jr),
{
    let a = ascii_bytes("{\n  \"cpu_time\": "@);
    let b = ascii_bytes(",\n  \"real_time\": "@);
    let c = ascii_bytes(",\n  \"memory\": "@);
    let d = ascii_bytes(",\n  \"state\": \""@);
    let e = ascii_bytes("\",\n  \"exit_code\": "@);
    let f = ascii_bytes("\n}"@);
    reveal_strlit(",\n  \"real_time\": ");
    reveal_strlit(",\n  \"memory\": ");
    reveal_strlit(",\n  \"state\": \"");
    reveal_strlit("\n}");
    let t9 = int_digits(jr.exit_code as int) + f;
    let t8 = e + t9;
    let t7 = state_name(jr.state) + t8;
    let t6 = d + t7;
    let t5 = dec_digits(jr.memory as nat) + t6;
    let t4 = c + t5;
    let t3 = dec_digits(jr.real_time as nat) + t4;
    let t2 = b + t3;
    let t1 = dec_digits(jr.cpu_time as nat) + t2;
    let s = a + t1;
    assert(render_verdict(jr) == s);
    lemma_strip_prefix_of_concat(a, t1);
    assert(t2[0] == b[0] && !is_digit(t2[0]));
    lemma_parse_u64_of_concat(jr.cpu_time, t2);
    lemma_strip_prefix_of_concat(b, t3);
    assert(t4[0] == c[0] && !is_digit(t4[0]));
    lemma_parse_u64_of_concat(jr.real_time, t4);
    lemma_strip_prefix_of_concat(c, t5);
    assert(t6[0] == d[0] && !is_digit(t6[0]));
    lemma_parse_u64_of_concat(jr.memory, t6);
    lemma_strip_prefix_of_concat(d, t7);
    lemma_parse_state_of_concat(jr.state, t8);
    lemma_strip_prefix_of_concat(e, t9);
    assert(f[0] == 10u8 && !is_digit(f[0]));
    lemma_parse_i32_of_concat(jr.exit_code, f);
    assert(f + Seq::<u8>::empty() =~= f);
    lemma_strip_prefix_of_concat(f, Seq::<u8>::empty());
    assert(parse_verdict(s) == Some(jr));
}

/// Appends an ASCII literal's bytes.
fn push_ascii(v: &mut Vec<u8>, s: &str)
    requires
        vstd::string::is_ascii(s),
    ensures
        final(v)@ == old(v)@ + ascii_bytes(s@),
{
    proof {
        vstd::string::is_ascii_spec_bytes(s);
    }
    let bytes = s.as_bytes();
    let mut i: usize = 0;
    while i < bytes.len()
        invariant
            i <= bytes@.len(),
            v@ == old(v)@ + bytes@.take(i as int),
            bytes@ =~= ascii_bytes(s@),
        decreases bytes@.len() - i,
    {
        v.push(bytes[i]);
        proof {
            assert(v@ =~= old(v)@ + bytes@.take(i + 1));
        }
        i = i + 1;
    }
    proof {
        assert(old(v)@ + bytes@.take(bytes@.len() as int) =~= old(v)@ + ascii_bytes(s@));
    }
}

/// Appends the decimal digits of `n`.
fn push_u64(v: &mut Vec<u8>, n: u64)
    ensures
        final(v)@ == old(v)@ + dec_digits(n as nat),
    decreases n,
{
    if n < 10 {
        v.push(48 + (n as u8));
        proof {
            assert(v@ =~= old(v)@ + dec_digits(n as nat));
        }
    } else {
        push_u64(v, n / 10);
        v.push(48 + ((n % 10) as u8));
        proof {
            assert(v@ =~= old(v)@ + (dec_digits((n / 10) as nat) + seq![
                (48 + (n as nat) % 10) as u8,
            ]));
        }
    }
}

/// Appends the decimal rendering of a possibly negative number.
fn push_i32(v: &mut Vec<u8>, n: i32)
    ensures
        final(v)@ == old(v)@ + int_digits(n as int),
{
    if n < 0 {
        v.push(45);
        let m: i64 = -(n as i64);
        push_u64(v, m as u64);
        proof {
            assert(v@ =~= old(v)@ + int_digits(n as int));
        }
    } else {
        push_u64(v, n as u64);
    }
}

/// Appends the state's name.
fn push_state_name(v: &mut Vec<u8>, s: JudgeState)
    ensures
        final(v)@ == old(v)@ + state_name(s),
{
    match s {
        JudgeState::SystemError => {
            proof {
                reveal_strlit("SystemError");
            }
            push_ascii(v, "SystemError");
        },
        JudgeState::MemoryLimitExceeded => {
            proof {
                reveal_strlit("MemoryLimitExceeded");
            }
            push_ascii(v, "MemoryLimitExceeded");
        },
        JudgeState::RealTimeLimitExceeded => {
            proof {
                reveal_strlit("RealTimeLimitExceeded");
            }
            push_ascii(v, "RealTimeLimitExceeded");
        },
        JudgeState::CpuTimeLimitExceeded => {
            proof {
                reveal_strlit("CpuTimeLimitExceeded");
            }
            push_ascii(v, "CpuTimeLimitExceeded");
        },
        JudgeState::RuntimeError => {
            proof {
                reveal_strlit("RuntimeError");
            }
            push_ascii(v, "RuntimeError");
        },
        JudgeState::Accepted => {
            proof {
                reveal_strlit("Accepted");
            }
            push_ascii(v, "Accepted");
        },
    }
}

/// Renders the verdict as the pretty-printed JSON document the judge emits.
#[verifier::rlimit(50)]
pub fn verdict_json(jr: &JudgeResult) -> (r: Vec<u8>)
    ensures
        r@ == render_verdict(*jr),
{
    proof {
        reveal_strlit("{\n  \"cpu_time\": ");
        reveal_strlit(",\n  \"real_time\": ");
        reveal_strlit(",\n  \"memory\": ");
        reveal_strlit(",\n  \"state\": \"");
        reveal_strlit("\",\n  \"exit_code\": ");
        reveal_strlit("\n}");
    }
    let mut v: Vec<u8> = Vec::new();
    push_ascii(&mut v, "{\n  \"cpu_time\": ");
    push_u64(&mut v, jr.cpu_time);
    push_ascii(&mut v, ",\n  \"real_time\": ");
    push_u64(&mut v, jr.real_time);
    push_ascii(&mut v, ",\n  \"memory\": ");
    push_u64(&mut v, jr.memory);
    push_ascii(&mut v, ",\n  \"state\": \"");
    push_state_name(&mut v, jr.state);
    push_ascii(&mut v, "\",\n  \"exit_code\": ");
    push_i32(&mut v, jr.exit_code);
    push_ascii(&mut v, "\n}");
    proof {
        assert(v@ =~= render_verdict(*jr));
    }
    v
}

} // verus!
