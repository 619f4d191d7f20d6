//! The configuration extractor's line scanner: a single forward pass over
//! the physical lines of a script file that separates the script body from
//! the embedded configuration block.
//!
//! A line containing the begin marker switches the scanner into config
//! capture and fixes the column of the marker; every captured line first
//! loses that many leading characters, so the block can sit behind any
//! language's comment syntax. A stripped line that begins with the end
//! marker switches back. Both marker lines stay in the script body; the
//! captured lines between them leave it.
use vstd::prelude::*;
use vstd::pervasive::VecAdditionalExecFns;

use crate::text::{
    match_at, find_from, strip_prefix, find_pat, starts_with_pat, vec_skip, chars_of, join_nl,
};

verus! {

/// The sentinel that opens an embedded configuration block.
pub open spec fn begin_marker() -> Seq<char> {
    "scriptisto-begin"@
}

/// The sentinel that closes an embedded configuration block.
pub open spec fn end_marker() -> Seq<char> {
    "scriptisto-end"@
}

/// The scanner is either collecting script lines or inside a configuration
/// block whose begin marker stood at column `prefix_len`.
pub enum ParserState {
    ScriptSource,
    ConfigSource { prefix_len: usize },
}

/// The mathematical counterpart of `ParserState`.
pub ghost enum ScanState {
    Script,
    Config { prefix: int },
}

pub open spec fn state_view(s: ParserState) -> ScanState {
    match s {
        ParserState::ScriptSource => ScanState::Script,
        ParserState::ConfigSource { prefix_len } => ScanState::Config { prefix: prefix_len as int },
    }
}

/// The scanner's accumulated output: script body lines, captured (already
/// stripped) configuration lines, and the current state.
#[verifier::ext_equal]
pub ghost struct ScanAcc {
    pub script: Seq<Seq<char>>,
    pub config: Seq<Seq<char>>,
    pub state: ScanState,
}

pub open spec fn scan_init() -> ScanAcc {
    ScanAcc { script: Seq::empty(), config: Seq::empty(), state: ScanState::Script }
}

/// One step of the scan, for a single physical line.
pub open spec fn scan_one(acc: ScanAcc, line: Seq<char>) -> ScanAcc {
    match acc.state {
        ScanState::Script => match find_from(line, begin_marker(), 0) {
            Some(p) => ScanAcc {
                script: acc.script.push(line),
                config: acc.config,
                state: ScanState::Config { prefix: p },
            },
            None => ScanAcc { script: acc.script.push(line), config: acc.config, state: acc.state },
        },
        ScanState::Config { prefix } => {
            let stripped = strip_prefix(line, prefix);
            if match_at(stripped, end_marker(), 0) {
                ScanAcc {
                    script: acc.script.push(line),
                    config: acc.config,
                    state: ScanState::Script,
                }
            } else {
                ScanAcc { script: acc.script, config: acc.config.push(stripped), state: acc.state }
            }
        },
    }
}

pub open spec fn scan_from(acc: ScanAcc, lines: Seq<Seq<char>>) -> ScanAcc
    decreases lines.len(),
{
    if lines.len() == 0 {
        acc
    } else {
        scan_one(scan_from(acc, lines.drop_last()), lines.last())
    }
}

/// The complete scan of a file's lines, from the initial state.
pub open spec fn scan_lines(lines: Seq<Seq<char>>) -> ScanAcc {
    scan_from(scan_init(), lines)
}

/// An exact copy of a line.
pub(crate) fn copy_line(v: &Vec<char>) -> (r: Vec<char>)
    ensures
        r@ == v@,
{
    let n = v.len();
    let mut r: Vec<char> = Vec::new();
    let mut i: usize = 0;
    while i < n
        invariant
            i <= n,
            n == v@.len(),
            r@ == v@.take(i as int),
        decreases n - i,
    {
        r.push(v[i]);
        i = i + 1;
        proof {
            assert(r@ =~= v@.take(i as int));
        }
    }
    proof {
        assert(v@.take(n as int) =~= v@);
    }
    r
}

/// Scans the lines once, left to right, and returns the script body lines
/// and the captured configuration lines.
pub(crate) fn scan(lines: &Vec<Vec<char>>) -> (r: (Vec<Vec<char>>, Vec<Vec<char>>))
    ensures
        r.0.deep_view() == scan_lines(lines.deep_view()).script,
        r.1.deep_view() == scan_lines(lines.deep_view()).config,
{
    let begin = chars_of("scriptisto-begin");
    let end = chars_of("scriptisto-end");
    let mut script: Vec<Vec<char>> = Vec::new();
    let mut config: Vec<Vec<char>> = Vec::new();
    let mut state = ParserState::ScriptSource;
    let n = lines.len();
    let mut i: usize = 0;
    while i < n
        invariant
            i <= n,
            n == lines@.len(),
            lines.deep_view().len() == n,
            begin@ == begin_marker(),
            end@ == end_marker(),
            script.deep_view() == scan_from(scan_init(), lines.deep_view().take(i as int)).script,
            config.deep_view() == scan_from(scan_init(), lines.deep_view().take(i as int)).config,
            state_view(state) == scan_from(scan_init(), lines.deep_view().take(i as int)).state,
        decreases n - i,
    {
        proof {
            assert(lines.deep_view().take(i + 1 as int).drop_last() =~= lines.deep_view().take(
                i as int,
            ));
            assert(lines.deep_view().take(i + 1 as int).last() == lines.deep_view()[i as int]);
            assert(lines@[i as int].deep_view() =~= lines@[i as int]@);
        }
        let line = &lines[i];
        match state {
            ParserState::ScriptSource => {
                let found = find_pat(line, &begin);
                script.push(copy_line(line));
                match found {
                    Some(p) => {
                        state = ParserState::ConfigSource { prefix_len: p };
                    },
                    None => {},
                }
                proof {
                    assert(script.deep_view() =~~= scan_from(
                        scan_init(),
                        lines.deep_view().take(i + 1 as int),
                    ).script);
                }
            },
            ParserState::ConfigSource { prefix_len } => {
                let stripped = vec_skip(line, prefix_len);
                if starts_with_pat(&stripped, &end) {
                    script.push(copy_line(line));
                    state = ParserState::ScriptSource;
                    proof {
                        assert(script.deep_view() =~~= scan_from(
                            scan_init(),
                            lines.deep_view().take(i + 1 as int),
                        ).script);
                    }
                } else {
                    config.push(stripped);
                    proof {
                        assert(config.deep_view() =~~= scan_from(
                            scan_init(),
                            lines.deep_view().take(i + 1 as int),
                        ).config);
                    }
                }
            },
        }
        i = i + 1;
    }
    proof {
        assert(lines.deep_view().take(n as int) =~= lines.deep_view());
    }
    (script, config)
}

/// A first line that names this tool in an interpreter directive: it starts
/// with the interpreter-marker prefix and mentions the self-reference token.
pub open spec fn is_self_shebang(l: Seq<char>) -> bool {
    &&& match_at(l, "#!"@, 0)
    &&& find_from(l, "scriptisto"@, 0) is Some
}

/// The script body after the shebang substitution: a self-referential first
/// line is replaced, in full, by the configured replacement; any other first
/// line is left untouched.
pub open spec fn rewrite_shebang(script: Seq<Seq<char>>, repl: Seq<char>) -> Seq<Seq<char>> {
    if script.len() > 0 && is_self_shebang(script[0]) {
        script.update(0, repl)
    } else {
        script
    }
}

/// Applies the shebang substitution in place.
pub(crate) fn apply_shebang_rewrite(script: &mut Vec<Vec<char>>, repl: &Vec<char>)
    ensures
        final(script).deep_view() == rewrite_shebang(old(script).deep_view(), repl@),
{
    if script.len() > 0 {
        let hb = chars_of("#!");
        let token = chars_of("scriptisto");
        proof {
            assert(old(script).deep_view()[0] =~= old(script)@[0]@);
        }
        let is_directive = starts_with_pat(&script[0], &hb);
        let mentions_self = match find_pat(&script[0], &token) {
            Some(_) => true,
            None => false,
        };
        if is_directive && mentions_self {
            script.set(0, copy_line(repl));
            proof {
                assert(script.deep_view() =~~= rewrite_shebang(old(script).deep_view(), repl@));
            }
        }
    }
}

/// Folding the scan over two runs of lines in turn is the same as folding
/// it over their concatenation.
proof fn lemma_scan_concat(acc: ScanAcc, a: Seq<Seq<char>>, b: Seq<Seq<char>>)
    ensures
        scan_from(acc, a + b) == scan_from(scan_from(acc, a), b),
    decreases b.len(),
{
    if b.len() == 0 {
        assert(a + b =~= a);
    } else {
        assert((a + b).drop_last() =~= a + b.drop_last());
        assert((a + b).last() == b.last());
        lemma_scan_concat(acc, a, b.drop_last());
    }
}

proof fn lemma_scan_singleton(acc: ScanAcc, l: Seq<char>)
    ensures
        scan_from(acc, seq![l]) == scan_one(acc, l),
{
    let s = seq![l];
    assert(s.len() == 1);
    assert(s.drop_last() =~= Seq::<Seq<char>>::empty());
    assert(s.last() == l);
    assert(scan_from(acc, s.drop_last()) == acc);
    assert(scan_from(acc, s) == scan_one(scan_from(acc, s.drop_last()), s.last()));
}

/// While no line holds the begin marker, the scan copies every line to the
/// script body and captures nothing.
proof fn lemma_scan_no_marker(acc: ScanAcc, ls: Seq<Seq<char>>)
    requires
        acc.state is Script,
        forall|k: int| 0 <= k < ls.len() ==> find_from(#[trigger] ls[k], begin_marker(), 0) is None,
    ensures
        scan_from(acc, ls) == (ScanAcc {
            script: acc.script + ls,
            config: acc.config,
            state: acc.state,
        }),
    decreases ls.len(),
{
    if ls.len() == 0 {
        assert(acc.script + ls =~= acc.script);
        assert(scan_from(acc, ls) =~= ScanAcc {
            script: acc.script + ls,
            config: acc.config,
            state: acc.state,
        });
    } else {
        lemma_scan_no_marker(acc, ls.drop_last());
        assert(find_from(ls.last(), begin_marker(), 0) is None);
        assert(acc.script + ls =~= (acc.script + ls.drop_last()).push(ls.last()));
        assert(scan_from(acc, ls) =~= ScanAcc {
            script: acc.script + ls,
            config: acc.config,
            state: acc.state,
        });
    }
}

/// While inside a configuration block whose lines never close it, the scan
/// captures every line, stripped of the block's prefix, and adds nothing to
/// the script body.
proof fn lemma_scan_capture(acc: ScanAcc, ls: Seq<Seq<char>>, c: int)
    requires
        acc.state == (ScanState::Config { prefix: c }),
        forall|k: int|
            0 <= k < ls.len() ==> !match_at(strip_prefix(#[trigger] ls[k], c), end_marker(), 0),
    ensures
        scan_from(acc, ls) == (ScanAcc {
            script: acc.script,
            config: acc.config + ls.map_values(|l: Seq<char>| strip_prefix(l, c)),
            state: acc.state,
        }),
    decreases ls.len(),
{
    let stripped = ls.map_values(|l: Seq<char>| strip_prefix(l, c));
    if ls.len() == 0 {
        assert(acc.config + stripped =~= acc.config);
        assert(scan_from(acc, ls) =~= ScanAcc {
            script: acc.script,
            config: acc.config + stripped,
            state: acc.state,
        });
    } else {
        lemma_scan_capture(acc, ls.drop_last(), c);
        assert(!match_at(strip_prefix(ls.last(), c), end_marker(), 0));
        let shorter = ls.drop_last().map_values(|l: Seq<char>| strip_prefix(l, c));
        assert(acc.config + stripped =~= (acc.config + shorter).push(strip_prefix(ls.last(), c)));
        assert(scan_from(acc, ls) =~= ScanAcc {
            script: acc.script,
            config: acc.config + stripped,
            state: acc.state,
        });
    }
}

/// Round-trip exclusion: when the lines hold exactly one well-formed marker
/// pair, with the begin marker first found on line `i` at column `c` and the
/// end marker closing the block on line `j`, the script body is exactly the
/// lines up to and including `i` followed by the lines from `j` on, and the
/// captured configuration is exactly the lines strictly between them, each
/// with its first `c` characters (fewer on shorter lines) removed.
pub proof fn lemma_round_trip_exclusion(lines: Seq<Seq<char>>, i: int, j: int, c: int)
    requires
        0 <= i < j < lines.len(),
        find_from(lines[i], begin_marker(), 0) == Some(c),
        forall|k: int| 0 <= k < i ==> find_from(#[trigger] lines[k], begin_marker(), 0) is None,
        forall|k: int|
            i < k < j ==> !match_at(strip_prefix(#[trigger] lines[k], c), end_marker(), 0),
        match_at(strip_prefix(lines[j], c), end_marker(), 0),
        forall|k: int|
            j < k < lines.len() ==> find_from(#[trigger] lines[k], begin_marker(), 0) is None,
    ensures
        scan_lines(lines).script == lines.take(i + 1) + lines.skip(j),
        scan_lines(lines).config == lines.subrange(i + 1, j).map_values(
            |l: Seq<char>| strip_prefix(l, c),
        ),
        scan_lines(lines).state is Script,
{
    let pre = lines.take(i);
    let bl = seq![lines[i]];
    let mid = lines.subrange(i + 1, j);
    let el = seq![lines[j]];
    let post = lines.skip(j + 1);
    assert(lines =~= (((pre + bl) + mid) + el) + post);

    let a0 = scan_init();
    lemma_scan_no_marker(a0, pre);
    let a1 = scan_from(a0, pre);
    assert(a1.script =~= pre);

    lemma_scan_concat(a0, pre, bl);
    lemma_scan_singleton(a1, lines[i]);
    let a2 = scan_from(a0, pre + bl);
    assert(a2 == scan_one(a1, lines[i]));
    assert(a2.state == (ScanState::Config { prefix: c }));
    assert(a2.script =~= lines.take(i + 1));

    lemma_scan_concat(a0, pre + bl, mid);
    lemma_scan_capture(a2, mid, c);
    let a3 = scan_from(a0, (pre + bl) + mid);
    assert(a3.config =~= mid.map_values(|l: Seq<char>| strip_prefix(l, c)));
    assert(a3.script == a2.script);

    lemma_scan_concat(a0, (pre + bl) + mid, el);
    lemma_scan_singleton(a3, lines[j]);
    let a4 = scan_from(a0, ((pre + bl) + mid) + el);
    assert(a4 == scan_one(a3, lines[j]));
    assert(a4.state is Script);
    assert(a4.script =~= lines.take(i + 1).push(lines[j]));
    assert(a4.config == a3.config);

    lemma_scan_concat(a0, ((pre + bl) + mid) + el, post);
    lemma_scan_no_marker(a4, post);
    let a5 = scan_from(a0, (((pre + bl) + mid) + el) + post);
    assert(a5.script =~= lines.take(i + 1) + lines.skip(j));
    assert(scan_lines(lines) == a5);
}

/// Round-trip exclusion carried to the reconstructed body: under the same
/// one-marker-pair hypotheses, when the first line is not a self-referential
/// interpreter directive the shebang substitution changes nothing, so the
/// body lines are exactly the lines outside the block; the extractor's own
/// contract then fixes the reconstructed content as these lines joined by
/// line feeds. (A self-referential first line is rewritten by design, so the
/// hypothesis excludes it.)
pub proof fn lemma_round_trip_body(lines: Seq<Seq<char>>, i: int, j: int, c: int, repl: Seq<char>)
    requires
        0 <= i < j < lines.len(),
        find_from(lines[i], begin_marker(), 0) == Some(c),
        forall|k: int| 0 <= k < i ==> find_from(#[trigger] lines[k], begin_marker(), 0) is None,
        forall|k: int|
            i < k < j ==> !match_at(strip_prefix(#[trigger] lines[k], c), end_marker(), 0),
        match_at(strip_prefix(lines[j], c), end_marker(), 0),
        forall|k: int|
            j < k < lines.len() ==> find_from(#[trigger] lines[k], begin_marker(), 0) is None,
        !is_self_shebang(lines[0]),
    ensures
        rewrite_shebang(scan_lines(lines).script, repl) == lines.take(i + 1) + lines.skip(j),
{
    lemma_round_trip_exclusion(lines, i, j, c);
    let script = scan_lines(lines).script;
    assert(script.len() > 0);
    assert(script[0] == lines[0]);
}

/// Prefix correctness: inside a configuration block whose begin marker
/// stood at column `c`, a line that does not close the block is captured
/// with exactly its first `min(c, length)` characters removed, the rest
/// unchanged, and the script body does not grow.
pub proof fn lemma_prefix_strip(acc: ScanAcc, line: Seq<char>, c: int)
    requires
        0 <= c,
        acc.state == (ScanState::Config { prefix: c }),
        !match_at(strip_prefix(line, c), end_marker(), 0),
    ensures
        scan_one(acc, line).config == acc.config.push(strip_prefix(line, c)),
        scan_one(acc, line).script == acc.script,
        scan_one(acc, line).state == acc.state,
        strip_prefix(line, c).len() == line.len() - (if c <= line.len() {
            c
        } else {
            line.len() as int
        }),
        forall|t: int|
            0 <= t < strip_prefix(line, c).len() ==> strip_prefix(line, c)[t] == line[(if c
                <= line.len() {
                c
            } else {
                line.len() as int
            }) + t],
{
}

/// Missing-marker failure: when no line holds the begin marker, the scan
/// captures nothing, so the configuration text is empty.
pub proof fn lemma_missing_marker(lines: Seq<Seq<char>>)
    requires
        forall|k: int|
            0 <= k < lines.len() ==> find_from(#[trigger] lines[k], begin_marker(), 0) is None,
    ensures
        scan_lines(lines).config == Seq::<Seq<char>>::empty(),
        join_nl(scan_lines(lines).config).len() == 0,
{
    lemma_scan_no_marker(scan_init(), lines);
}

} // verus!
