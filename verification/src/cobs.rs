//! Consistent overhead byte stuffing, the link layer's escape for zero bytes.
//!
//! A stuffed body is a sequence of groups. Each group is a code byte `c`
//! (1..=255) followed by `c - 1` data bytes, all non-zero. A group with
//! `c < 255` that is not the last group stands for its data bytes followed by
//! one zero; a group with `c == 255` stands for its 254 data bytes alone; the
//! last group stands for its data bytes alone. The stuffed body therefore
//! contains no zero byte at all, so a zero can delimit frames on the wire.

use vstd::prelude::*;

verus! {

/// Length of the leading run the encoder turns into one group: the number of
/// leading non-zero bytes of `s`, capped at 254.
pub open spec fn cobs_run_len(s: Seq<u8>) -> nat
    decreases s.len(),
{
    if s.len() == 0 {
        0
    } else if s[0] == 0 {
        0
    } else {
        let r = cobs_run_len(s.skip(1));
        if r + 1 <= 254 {
            r + 1
        } else {
            254
        }
    }
}

/// The canonical stuffed form of `s`.
pub open spec fn cobs_encode_spec(s: Seq<u8>) -> Seq<u8>
    decreases s.len(),
{
    let k = cobs_run_len(s);
    if k >= s.len() && s.len() <= 254 {
        seq![(s.len() + 1) as u8] + s
    } else if k >= 254 {
        seq![255u8] + s.take(254) + cobs_encode_spec(s.skip(254))
    } else {
        seq![(k + 1) as u8] + s.take(k as int) + cobs_encode_spec(s.skip(k as int + 1))
    }
}

/// Unstuffing of a delimited body `s`; `None` when `s` is not a valid
/// stuffed body (an empty body, a zero byte anywhere, or a group that runs
/// past the end).
pub open spec fn cobs_decode_spec(s: Seq<u8>) -> Option<Seq<u8>>
    decreases s.len(),
{
    if s.len() == 0 {
        None
    } else if s[0] == 0 {
        None
    } else if s.len() < s[0] as int {
        None
    } else if exists|j: int| 1 <= j < s[0] as int && (#[trigger] s[j]) == 0 {
        None
    } else if s.len() == s[0] as int {
        Some(s.subrange(1, s[0] as int))
    } else {
        match cobs_decode_spec(s.skip(s[0] as int)) {
            Option::None => None,
            Option::Some(rest) => Some(
                s.subrange(1, s[0] as int) + (if (s[0] as int) < 255 {
                    seq![0u8]
                } else {
                    Seq::<u8>::empty()
                }) + rest,
            ),
        }
    }
}

/// What the run length is: at most 254, at most the whole of `s`, nothing but
/// non-zero bytes before it, and a zero right after it unless it was capped.
pub proof fn lemma_run_len_bounds(s: Seq<u8>)
    ensures
        cobs_run_len(s) <= s.len(),
        cobs_run_len(s) <= 254,
        forall|j: int| 0 <= j < cobs_run_len(s) ==> s[j] != 0,
        cobs_run_len(s) < s.len() && cobs_run_len(s) < 254 ==> s[cobs_run_len(s) as int] == 0,
    decreases s.len(),
{
    if s.len() == 0 {
    } else if s[0] == 0 {
    } else {
        lemma_run_len_bounds(s.skip(1));
        let k = cobs_run_len(s);
        let r = cobs_run_len(s.skip(1));
        assert forall|j: int| 0 <= j < k implies s[j] != 0 by {
            if j > 0 {
                assert(s.skip(1)[j - 1] == s[j]);
            }
        }
        if k < s.len() && k < 254 {
            assert(r == k - 1);
            assert(s.skip(1)[r as int] == s[k as int]);
        }
    }
}

/// A prefix of `k` non-zero bytes pushes the run length to at least `k`.
pub proof fn lemma_run_len_ge(s: Seq<u8>, k: int)
    requires
        0 <= k <= s.len(),
        k <= 254,
        forall|j: int| 0 <= j < k ==> s[j] != 0,
    ensures
        cobs_run_len(s) >= k,
    decreases s.len(),
{
    if k == 0 {
    } else {
        assert(s[0] != 0);
        assert forall|j: int| 0 <= j < k - 1 implies s.skip(1)[j] != 0 by {
            assert(s.skip(1)[j] == s[j + 1]);
        }
        lemma_run_len_ge(s.skip(1), k - 1);
    }
}

/// A zero byte at position `k` caps the run length at `k`.
pub proof fn lemma_run_len_le(s: Seq<u8>, k: int)
    requires
        0 <= k < s.len(),
        s[k] == 0,
    ensures
        cobs_run_len(s) <= k,
    decreases s.len(),
{
    if k == 0 {
    } else if s[0] == 0 {
    } else {
        assert(s.skip(1)[k - 1] == s[k]);
        lemma_run_len_le(s.skip(1), k - 1);
    }
}

/// The stuffed form is never empty and adds at most one byte per started
/// group of 254.
pub proof fn lemma_cobs_encode_len(s: Seq<u8>)
    ensures
        cobs_encode_spec(s).len() >= 1,
        cobs_encode_spec(s).len() <= s.len() + 1 + s.len() / 254,
    decreases s.len(),
{
    let k = cobs_run_len(s);
    if k >= s.len() && s.len() <= 254 {
    } else if k >= 254 {
        lemma_cobs_encode_len(s.skip(254));
        assert((s.len() - 254) / 254 == s.len() / 254 - 1) by (nonlinear_arith)
            requires
                s.len() >= 254,
        ;
    } else {
        lemma_cobs_encode_len(s.skip(k as int + 1));
        assert((s.len() - (k + 1)) / 254 <= s.len() / 254) by (nonlinear_arith)
            requires
                0 <= k,
                k + 1 <= s.len(),
        ;
    }
}

/// The stuffed body holds no zero byte: this is what lets a zero delimit
/// frames.
pub proof fn lemma_cobs_encode_nonzero(s: Seq<u8>)
    ensures
        forall|i: int| 0 <= i < cobs_encode_spec(s).len() ==> (#[trigger] cobs_encode_spec(s)[i])
            != 0,
    decreases s.len(),
{
    lemma_run_len_bounds(s);
    let k = cobs_run_len(s);
    let e = cobs_encode_spec(s);
    if k >= s.len() && s.len() <= 254 {
        assert forall|i: int| 0 <= i < e.len() implies e[i] != 0 by {
            if i > 0 {
                assert(e[i] == s[i - 1]);
            }
        }
    } else if k >= 254 {
        lemma_cobs_encode_nonzero(s.skip(254));
        let e2 = cobs_encode_spec(s.skip(254));
        assert forall|i: int| 0 <= i < e.len() implies e[i] != 0 by {
            if i == 0 {
            } else if i <= 254 {
                assert(e[i] == s[i - 1]);
            } else {
                assert(e[i] == e2[i - 255]);
            }
        }
    } else {
        lemma_cobs_encode_nonzero(s.skip(k as int + 1));
        let e2 = cobs_encode_spec(s.skip(k as int + 1));
        assert forall|i: int| 0 <= i < e.len() implies e[i] != 0 by {
            if i == 0 {
                assert(e[0] == k + 1);
            } else if i <= k {
                assert(e[i] == s[i - 1]);
            } else {
                assert(e[i] == e2[i - (k + 1)]);
            }
        }
    }
}

/// Round trip: unstuffing the canonical stuffed form of any byte sequence
/// yields that sequence again.
pub proof fn lemma_cobs_round_trip(s: Seq<u8>)
    ensures
        cobs_decode_spec(cobs_encode_spec(s)) == Some(s),
    decreases s.len(),
{
    lemma_run_len_bounds(s);
    let k = cobs_run_len(s);
    let e = cobs_encode_spec(s);
    if k >= s.len() && s.len() <= 254 {
        let c = s.len() + 1;
        assert(e[0] == c as u8);
        assert(e.len() == c);
        assert forall|j: int| 1 <= j < c implies (#[trigger] e[j]) != 0 by {
            assert(e[j] == s[j - 1]);
        }
        assert(e.subrange(1, c as int) =~= s);
    } else if k >= 254 {
        lemma_cobs_round_trip(s.skip(254));
        lemma_cobs_encode_len(s.skip(254));
        let e2 = cobs_encode_spec(s.skip(254));
        assert(e[0] == 255u8);
        assert(e.len() == 255 + e2.len());
        assert forall|j: int| 1 <= j < 255 implies (#[trigger] e[j]) != 0 by {
            assert(e[j] == s.take(254)[j - 1]);
        }
        assert(e.skip(255) =~= e2);
        assert(e.subrange(1, 255) =~= s.take(254));
        assert(s.take(254) + Seq::<u8>::empty() + s.skip(254) =~= s);
    } else {
        // k < 254 and k < s.len(): the run ends at a zero byte of s.
        assert(s[k as int] == 0);
        lemma_cobs_round_trip(s.skip(k as int + 1));
        lemma_cobs_encode_len(s.skip(k as int + 1));
        let e2 = cobs_encode_spec(s.skip(k as int + 1));
        let c = k + 1;
        assert(e[0] == c as u8);
        assert(e.len() == c + e2.len());
        assert(e.len() > c);
        assert forall|j: int| 1 <= j < c implies (#[trigger] e[j]) != 0 by {
            assert(e[j] == s.take(k as int)[j - 1]);
        }
        assert(e.skip(c as int) =~= e2);
        assert(e.subrange(1, c as int) =~= s.take(k as int));
        assert(s.take(k as int) + seq![0u8] + s.skip(k as int + 1) =~= s);
    }
}

fn push_range(out: &mut Vec<u8>, data: &[u8], from: usize, to: usize)
    requires
        from <= to <= data@.len(),
    ensures
        final(out)@ == old(out)@ + data@.subrange(from as int, to as int),
{
    let mut t: usize = from;
    while t < to
        invariant
            from <= t <= to <= data@.len(),
            out@ == old(out)@ + data@.subrange(from as int, t as int),
        decreases to - t,
    {
        out.push(data[t]);
        t = t + 1;
        proof {
            assert(data@.subrange(from as int, t as int) =~= data@.subrange(
                from as int,
                t as int - 1,
            ).push(data@[t as int - 1]));
        }
    }
}

/// Stuff `data`, producing its canonical zero-free encoding.
#[verifier::loop_isolation(false)]
#[verifier::rlimit(60)]
pub fn cobs_encode(data: &[u8]) -> (out: Vec<u8>)
    ensures
        out@ == cobs_encode_spec(data@),
{
    let n = data.len();
    let mut out: Vec<u8> = Vec::new();
    let mut i: usize = 0;
    proof {
        assert(data@.skip(0) =~= data@);
        assert(out@ + cobs_encode_spec(data@) =~= cobs_encode_spec(data@));
    }
    loop
        invariant
            0 <= i <= n,
            n == data@.len(),
            cobs_encode_spec(data@) == out@ + cobs_encode_spec(data@.skip(i as int)),
        decreases n - i,
    {
        let mut j: usize = i;
        while j < n && j - i < 254 && data[j] != 0
            invariant
                i <= j <= n,
                j - i <= 254,
                n == data@.len(),
                forall|t: int| i <= t < j ==> data@[t] != 0,
            decreases n - j,
        {
            j = j + 1;
        }
        let k = j - i;
        let ghost suf = data@.skip(i as int);
        proof {
            assert(suf.len() == n - i);
            assert forall|t: int| 0 <= t < k implies suf[t] != 0 by {
                assert(suf[t] == data@[i + t]);
            }
            lemma_run_len_ge(suf, k as int);
            lemma_run_len_bounds(suf);
            if j < n && k < 254 {
                assert(suf[k as int] == data@[j as int]);
                lemma_run_len_le(suf, k as int);
            }
        }
        if j == n {
            // Final group: it stands for the remaining bytes alone.
            out.push((k as u8) + 1);
            push_range(&mut out, data, i, j);
            proof {
                assert(cobs_encode_spec(suf) =~= seq![(suf.len() + 1) as u8] + suf);
                assert(data@.subrange(i as int, j as int) =~= suf);
                assert(out@ =~= cobs_encode_spec(data@));
            }
            return out;
        } else if k == 254 {
            out.push(255);
            push_range(&mut out, data, i, j);
            proof {
                assert(cobs_run_len(suf) >= 254);
                assert(!(cobs_run_len(suf) >= suf.len() && suf.len() <= 254));
                assert(cobs_encode_spec(suf) == seq![255u8] + suf.take(254) + cobs_encode_spec(
                    suf.skip(254),
                ));
                assert(data@.subrange(i as int, j as int) =~= suf.take(254));
                assert(suf.skip(254) =~= data@.skip(j as int));
            }
            i = j;
        } else {
            // The run ended at a zero byte, which the group's implied zero
            // will stand for.
            out.push((k as u8) + 1);
            push_range(&mut out, data, i, j);
            proof {
                assert(cobs_run_len(suf) == k);
                assert(cobs_encode_spec(suf) == seq![(k + 1) as u8] + suf.take(k as int)
                    + cobs_encode_spec(suf.skip(k as int + 1)));
                assert(data@.subrange(i as int, j as int) =~= suf.take(k as int));
                assert(suf.skip(k as int + 1) =~= data@.skip(j as int + 1));
            }
            i = j + 1;
        }
    }
}

/// Unstuff a delimited body; `None` when it is not a valid stuffed body.
#[verifier::loop_isolation(false)]
pub fn cobs_decode(body: &[u8]) -> (r: Option<Vec<u8>>)
    ensures
        match r {
            Some(v) => cobs_decode_spec(body@) == Some(v@),
            None => cobs_decode_spec(body@) is None,
        },
{
    let n = body.len();
    if n == 0 {
        return None;
    }
    let mut out: Vec<u8> = Vec::new();
    let mut i: usize = 0;
    proof {
        assert(body@.skip(0) =~= body@);
        if cobs_decode_spec(body@) is Some {
            assert(out@ + cobs_decode_spec(body@)->Some_0 =~= cobs_decode_spec(body@)->Some_0);
        }
    }
    loop
        invariant
            0 <= i < n,
            n == body@.len(),
            cobs_decode_spec(body@.skip(i as int)) is Some ==> cobs_decode_spec(body@) == Some(
                out@ + cobs_decode_spec(body@.skip(i as int))->Some_0,
            ),
            cobs_decode_spec(body@.skip(i as int)) is None ==> cobs_decode_spec(body@) is None,
        decreases n - i,
    {
        let ghost suf = body@.skip(i as int);
        let code = body[i];
        proof {
            assert(suf[0] == code);
        }
        if code == 0 {
            return None;
        }
        let code_us = code as usize;
        if n - i < code_us {
            proof {
                assert(suf.len() < code as int);
            }
            return None;
        }
        let ghost out0 = out@;
        let mut t: usize = i + 1;
        while t < i + code_us
            invariant
                i + 1 <= t <= i + code_us,
                i + code_us <= n,
                n == body@.len(),
                code_us == code,
                out@ == out0 + body@.subrange(i as int + 1, t as int),
                forall|u: int| i + 1 <= u < t ==> body@[u] != 0,
            decreases i + code_us - t,
        {
            let b = body[t];
            if b == 0 {
                proof {
                    assert(suf[t - i] == 0);
                    assert(1 <= t - i < code as int);
                }
                return None;
            }
            out.push(b);
            proof {
                assert(body@.subrange(i as int + 1, t as int + 1) =~= body@.subrange(
                    i as int + 1,
                    t as int,
                ).push(body@[t as int]));
            }
            t = t + 1;
        }
        let ghost group = suf.subrange(1, code as int);
        proof {
            assert(group =~= body@.subrange(i as int + 1, i as int + code_us));
            assert forall|j: int| 1 <= j < code as int implies (#[trigger] suf[j]) != 0 by {
                assert(suf[j] == body@[i + j]);
            }
        }
        if i + code_us == n {
            proof {
                assert(suf.len() == code as int);
                assert(cobs_decode_spec(suf) == Some(group));
                assert(out@ == out0 + group);
            }
            return Some(out);
        }
        if code < 255 {
            out.push(0);
        }
        proof {
            assert(suf.len() > code as int);
            assert(suf.skip(code as int) =~= body@.skip(i as int + code_us));
            let sep: Seq<u8> = if (code as int) < 255 {
                seq![0u8]
            } else {
                Seq::<u8>::empty()
            };
            assert(out@ == out0 + group + sep);
            if cobs_decode_spec(suf.skip(code as int)) is Some {
                let rest = cobs_decode_spec(suf.skip(code as int))->Some_0;
                assert(cobs_decode_spec(suf) == Some(group + sep + rest));
                assert(out0 + (group + sep + rest) =~= (out0 + group + sep) + rest);
            } else {
                assert(cobs_decode_spec(suf) is None);
            }
        }
        i = i + code_us;
    }
}

} // verus!
