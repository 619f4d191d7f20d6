//! The launch resolver: from the configured interpreter, the resolved
//! artifact path and the passthrough arguments, computes the binary to
//! execute and the exact argument vector, with no side effects.
//!
//! When the interpreter value has tokens, the first token is the binary and
//! the remaining tokens, with the artifact path appended, precede the
//! passthrough arguments. An absent, empty or all-whitespace interpreter
//! leaves the artifact itself as the binary. Passthrough arguments are
//! forwarded unchanged, with no re-splitting or quoting.
use vstd::prelude::*;

use crate::text::{chars_of, chars_to_string, opt_view};

verus! {

/// A character that ASCII-whitespace splitting separates on.
pub open spec fn is_ascii_ws(c: char) -> bool {
    c == ' ' || c == '\t' || c == '\n' || c == '\r' || c == '\u{c}'
}

/// The state of a left-to-right tokenizer: finished tokens, and the
/// characters of the token being read.
#[verifier::ext_equal]
pub ghost struct TokAcc {
    pub done: Seq<Seq<char>>,
    pub cur: Seq<char>,
}

pub open spec fn tok_step(acc: TokAcc, c: char) -> TokAcc {
    if is_ascii_ws(c) {
        if acc.cur.len() > 0 {
            TokAcc { done: acc.done.push(acc.cur), cur: Seq::empty() }
        } else {
            acc
        }
    } else {
        TokAcc { done: acc.done, cur: acc.cur.push(c) }
    }
}

pub open spec fn tok_fold(s: Seq<char>) -> TokAcc
    decreases s.len(),
{
    if s.len() == 0 {
        TokAcc { done: Seq::empty(), cur: Seq::empty() }
    } else {
        tok_step(tok_fold(s.drop_last()), s.last())
    }
}

/// The ASCII-whitespace-separated tokens of `s`, in order.
pub open spec fn split_ws(s: Seq<char>) -> Seq<Seq<char>> {
    let acc = tok_fold(s);
    if acc.cur.len() == 0 {
        acc.done
    } else {
        acc.done.push(acc.cur)
    }
}

/// Splits `s` into its ASCII-whitespace-separated tokens.
pub(crate) fn split_ws_vec(s: &Vec<char>) -> (r: Vec<Vec<char>>)
    ensures
        r.deep_view() == split_ws(s@),
{
    let mut done: Vec<Vec<char>> = Vec::new();
    let mut cur: Vec<char> = Vec::new();
    let n = s.len();
    let mut i: usize = 0;
    while i < n
        invariant
            i <= n,
            n == s@.len(),
            done.deep_view() == tok_fold(s@.take(i as int)).done,
            cur@ == tok_fold(s@.take(i as int)).cur,
        decreases n - i,
    {
        let c = s[i];
        proof {
            assert(s@.take(i + 1 as int).drop_last() =~= s@.take(i as int));
            assert(s@.take(i + 1 as int).last() == s@[i as int]);
        }
        if c == ' ' || c == '\t' || c == '\n' || c == '\r' || c == '\u{c}' {
            if cur.len() > 0 {
                done.push(cur);
                cur = Vec::new();
                proof {
                    assert(done.deep_view() =~~= tok_fold(s@.take(i + 1 as int)).done);
                }
            }
        } else {
            cur.push(c);
        }
        i = i + 1;
    }
    proof {
        assert(s@.take(n as int) =~= s@);
    }
    if cur.len() > 0 {
        done.push(cur);
        proof {
            assert(done.deep_view() =~~= split_ws(s@));
        }
    } else {
        proof {
            assert(done.deep_view() =~~= split_ws(s@));
        }
    }
    done
}

/// The computed launch: the binary to execute, and the full argument vector
/// beginning with the binary itself.
pub struct ResolvedLaunch {
    pub binary: String,
    pub argv: Vec<String>,
}

/// The binary and argument vector the resolver's rules yield: with
/// interpreter tokens t0..tk, the binary is t0 and the argument vector is
/// [t0, t1, .., tk, artifact] followed by the passthrough arguments; with no
/// tokens, the binary is the artifact and the argument vector is [artifact]
/// followed by the passthrough arguments.
pub open spec fn spec_resolve(
    interp: Option<Seq<char>>,
    full_bin: Seq<char>,
    pass: Seq<Seq<char>>,
) -> (Seq<char>, Seq<Seq<char>>) {
    let toks = split_ws(
        match interp {
            Some(s) => s,
            None => Seq::empty(),
        },
    );
    if toks.len() > 0 {
        (toks[0], seq![toks[0]] + toks.skip(1) + seq![full_bin] + pass)
    } else {
        (full_bin, seq![full_bin] + pass)
    }
}

/// Appends clones of all of `src` to `dst`, in order.
fn push_all(dst: &mut Vec<String>, src: &Vec<String>)
    ensures
        final(dst).deep_view() == old(dst).deep_view() + src.deep_view(),
{
    let n = src.len();
    let mut i: usize = 0;
    while i < n
        invariant
            i <= n,
            n == src@.len(),
            dst.deep_view() == old(dst).deep_view() + src.deep_view().take(i as int),
        decreases n - i,
    {
        let ghost pre_dv = dst.deep_view();
        let v = src[i].clone();
        proof {
            assert(v@ == src.deep_view()[i as int]);
        }
        dst.push(v);
        i = i + 1;
        proof {
            assert(dst.deep_view() =~~= pre_dv.push(src.deep_view()[i - 1]));
            assert(dst.deep_view() =~~= old(dst).deep_view() + src.deep_view().take(i as int));
        }
    }
    proof {
        assert(old(dst).deep_view() + src.deep_view().take(n as int) =~~= old(dst).deep_view()
            + src.deep_view());
    }
}

/// Computes the binary and argument vector for the launch.
///
/// `full_target_bin` is the canonical absolute path of the target binary
/// inside the cache directory; the caller resolves it beforehand, and a path
/// that cannot be resolved is an artifact-not-found error before this point
/// is ever reached. There is no fallback of any kind here: the result is a
/// pure function of the three inputs.
pub fn resolve_launch(
    target_interpreter: &Option<String>,
    full_target_bin: String,
    args: &Vec<String>,
) -> (r: ResolvedLaunch)
    ensures
        ({
            let m = spec_resolve(opt_view(*target_interpreter), full_target_bin@, args.deep_view());
            &&& r.binary@ == m.0
            &&& r.argv.deep_view() == m.1
        }),
{
    let interp_chars = match target_interpreter {
        Some(s) => chars_of(s.as_str()),
        None => Vec::new(),
    };
    proof {
        if target_interpreter is None {
            assert(interp_chars@ =~= Seq::<char>::empty());
        }
    }
    let tokens = split_ws_vec(&interp_chars);
    let mut argv: Vec<String> = Vec::new();
    if tokens.len() > 0 {
        let ghost toks = tokens.deep_view();
        let binary = chars_to_string(&tokens[0]);
        argv.push(binary.clone());
        proof {
            assert(argv.deep_view() =~~= seq![toks[0]] + toks.subrange(1, 1));
        }
        let n = tokens.len();
        let mut i: usize = 1;
        while i < n
            invariant
                1 <= i <= n,
                n == tokens@.len(),
                toks == tokens.deep_view(),
                argv.deep_view() == seq![toks[0]] + toks.subrange(1, i as int),
            decreases n - i,
        {
            let ghost pre_dv = argv.deep_view();
            let t = chars_to_string(&tokens[i]);
            proof {
                assert(t@ == toks[i as int]);
            }
            argv.push(t);
            i = i + 1;
            proof {
                assert(argv.deep_view() =~~= pre_dv.push(toks[i - 1]));
                assert(argv.deep_view() =~~= seq![toks[0]] + toks.subrange(1, i as int));
            }
        }
        let ghost bin_view = full_target_bin@;
        argv.push(full_target_bin);
        proof {
            assert(argv.deep_view() =~~= seq![toks[0]] + toks.skip(1) + seq![bin_view]);
        }
        push_all(&mut argv, args);
        proof {
            assert(argv.deep_view() =~~= seq![toks[0]] + toks.skip(1) + seq![bin_view]
                + args.deep_view());
        }
        ResolvedLaunch { binary, argv }
    } else {
        let binary = full_target_bin.clone();
        argv.push(full_target_bin);
        proof {
            assert(argv.deep_view() =~~= seq![binary@]);
        }
        push_all(&mut argv, args);
        proof {
            assert(argv.deep_view() =~~= seq![binary@] + args.deep_view());
        }
        ResolvedLaunch { binary, argv }
    }
}

proof fn lemma_ws_only_no_tokens(s: Seq<char>)
    requires
        forall|k: int| 0 <= k < s.len() ==> is_ascii_ws(#[trigger] s[k]),
    ensures
        tok_fold(s) == (TokAcc { done: Seq::empty(), cur: Seq::empty() }),
    decreases s.len(),
{
    if s.len() == 0 {
        assert(tok_fold(s) =~= TokAcc { done: Seq::empty(), cur: Seq::empty() });
    } else {
        lemma_ws_only_no_tokens(s.drop_last());
        assert(is_ascii_ws(s.last()));
        assert(tok_fold(s) =~= TokAcc { done: Seq::empty(), cur: Seq::empty() });
    }
}

/// Interpreter equivalence: an interpreter value that is empty or all
/// whitespace resolves to exactly the same binary and argument vector as an
/// absent one.
pub proof fn lemma_interpreter_equivalence(s: Seq<char>, full_bin: Seq<char>, pass: Seq<Seq<char>>)
    requires
        forall|k: int| 0 <= k < s.len() ==> is_ascii_ws(#[trigger] s[k]),
    ensures
        spec_resolve(Some(s), full_bin, pass) == spec_resolve(None, full_bin, pass),
{
    lemma_ws_only_no_tokens(s);
    lemma_ws_only_no_tokens(Seq::<char>::empty());
}

} // verus!
