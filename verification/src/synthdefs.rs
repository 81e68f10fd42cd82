//! Preparing a SuperCollider script that compiles synth definitions into a
//! chosen directory, judging the compiler's output, and naming recordings.

use vstd::prelude::*;
use crate::text::{chars_of, decimal, push_decimal, string_of};

verus! {

/// `s` with every occurrence of `pat` replaced by `to`, scanning from the left
/// and not overlapping (`str::replace`), for a non-empty `pat`.
pub open spec fn replace_all(s: Seq<char>, pat: Seq<char>, to: Seq<char>) -> Seq<char>
    decreases s.len(),
{
    if pat.len() == 0 || s.len() == 0 {
        s
    } else if pat.len() <= s.len() && s.subrange(0, pat.len() as int) == pat {
        to + replace_all(s.subrange(pat.len() as int, s.len() as int), pat, to)
    } else {
        seq![s[0]] + replace_all(s.drop_first(), pat, to)
    }
}

/// Whether `pat` occurs in `s` at position `i`.
pub open spec fn occurs_at(s: Seq<char>, pat: Seq<char>, i: int) -> bool {
    0 <= i && i + pat.len() <= s.len() && s.subrange(i, i + pat.len()) == pat
}

/// Replaces every occurrence of a non-empty `pat` in `s` by `to`.
pub fn replace_chars(s: &Vec<char>, pat: &Vec<char>, to: &Vec<char>) -> (r: Vec<char>)
    requires
        pat@.len() > 0,
    ensures
        r@ == replace_all(s@, pat@, to@),
{
    let n = s.len();
    let m = pat.len();
    let mut out: Vec<char> = Vec::new();
    let mut i: usize = 0;
    assert(s@.subrange(0, n as int) =~= s@);
    assert(out@ + replace_all(s@, pat@, to@) =~= replace_all(s@, pat@, to@));
    while i < n
        invariant
            n == s@.len(),
            m == pat@.len(),
            m > 0,
            i <= n,
            out@ + replace_all(s@.subrange(i as int, n as int), pat@, to@) == replace_all(s@, pat@, to@),
        decreases n - i,
    {
        let ghost rest = s@.subrange(i as int, n as int);
        let mut matched = m <= n - i;
        let mut k: usize = 0;
        while matched && k < m
            invariant
                n == s@.len(),
                m == pat@.len(),
                i < n,
                k <= m,
                matched ==> m <= n - i,
                matched ==> forall|j: int| 0 <= j < k ==> s@[i + j] == pat@[j],
                !matched ==> !(m <= n - i && s@.subrange(i as int, i + m) == pat@),
            decreases m - k,
        {
            if s[i + k] != pat[k] {
                matched = false;
                assert(s@.subrange(i as int, i + m)[k as int] != pat@[k as int]);
            }
            k = k + 1;
        }
        if matched {
            assert(s@.subrange(i as int, i + m) =~= pat@);
            assert(rest.subrange(0, m as int) =~= pat@);
            assert(rest.subrange(m as int, rest.len() as int) =~= s@.subrange(i + m, n as int));
            let mut t: usize = 0;
            let ghost before = out@;
            while t < to.len()
                invariant
                    t <= to@.len(),
                    out@ == before + to@.subrange(0, t as int),
                decreases to@.len() - t,
            {
                out.push(to[t]);
                t = t + 1;
                assert(out@ =~= before + to@.subrange(0, t as int));
            }
            assert(to@.subrange(0, to@.len() as int) =~= to@);
            assert(before + replace_all(rest, pat@, to@) == before + (to@ + replace_all(s@.subrange(i + m, n as int), pat@, to@)));
            assert(out@ + replace_all(s@.subrange(i + m, n as int), pat@, to@) =~= before + (to@ + replace_all(s@.subrange(i + m, n as int), pat@, to@)));
            i = i + m;
        } else {
            assert(!(m <= rest.len() && rest.subrange(0, m as int) == pat@)) by {
                if m <= rest.len() && rest.subrange(0, m as int) == pat@ {
                    assert(rest.subrange(0, m as int) =~= s@.subrange(i as int, i + m));
                }
            }
            assert(rest.drop_first() =~= s@.subrange(i + 1, n as int));
            assert(rest[0] == s@[i as int]);
            let ghost before = out@;
            out.push(s[i]);
            assert(out@ + replace_all(s@.subrange(i + 1, n as int), pat@, to@) =~= before + (seq![rest[0]] + replace_all(rest.drop_first(), pat@, to@)));
            i = i + 1;
        }
    }
    assert(s@.subrange(n as int, n as int) =~= Seq::<char>::empty());
    assert(out@ + Seq::<char>::empty() =~= out@);
    out
}

/// The place a compile script writes its synth definitions to, in the script's
/// own words (the compiler fills it in with the script's directory).
pub open spec fn dir_expr_guarded() -> Seq<char> {
    "dir ? thisProcess.nowExecutingPath.dirname"@
}

/// The script's directory as the compiler computes it.
pub open spec fn dir_expr() -> Seq<char> {
    "thisProcess.nowExecutingPath.dirname"@
}

/// The script that compiles `scd` into `output_dir`: both forms of the script
/// directory are replaced by the quoted output directory, and the script is
/// wrapped so that it reports success and exits.
pub open spec fn compile_script_text(scd: Seq<char>, output_dir: Seq<char>) -> Seq<char> {
    let quoted = "\""@ + output_dir + "\""@;
    let body = replace_all(replace_all(scd, dir_expr_guarded(), quoted), dir_expr(), quoted);
    "(\n"@ + body + "\n\"SUCCESS\".postln;\n0.exit;\n)"@
}

/// The script that compiles `scd` into `output_dir`.
pub fn compile_script(scd: &str, output_dir: &str) -> (r: String)
    ensures
        r@ == compile_script_text(scd@, output_dir@),
{
    proof {
        reveal_strlit("dir ? thisProcess.nowExecutingPath.dirname");
        reveal_strlit("thisProcess.nowExecutingPath.dirname");
        reveal_strlit("\"");
    }
    let mut quoted: Vec<char> = Vec::new();
    quoted.push('"');
    let dir = chars_of(output_dir);
    let mut i: usize = 0;
    while i < dir.len()
        invariant
            i <= dir@.len(),
            quoted@ == seq!['"'] + dir@.subrange(0, i as int),
        decreases dir@.len() - i,
    {
        quoted.push(dir[i]);
        i = i + 1;
        assert(quoted@ =~= seq!['"'] + dir@.subrange(0, i as int));
    }
    quoted.push('"');
    assert(quoted@ =~= "\""@ + output_dir@ + "\""@);
    let content = chars_of(scd);
    let guarded = chars_of("dir ? thisProcess.nowExecutingPath.dirname");
    let plain = chars_of("thisProcess.nowExecutingPath.dirname");
    let once = replace_chars(&content, &guarded, &quoted);
    let twice = replace_chars(&once, &plain, &quoted);
    let mut out = String::from_str("(\n");
    out.append(string_of(&twice).as_str());
    out.append("\n\"SUCCESS\".postln;\n0.exit;\n)");
    out
}

/// A line of the compiler's output starts with `pat` at position `i` (the start
/// of the text or just after a line break).
pub open spec fn line_starts_at(s: Seq<char>, pat: Seq<char>, i: int) -> bool {
    occurs_at(s, pat, i) && (i == 0 || s[i - 1] == '\n')
}

/// The compiler reported a failure: its error stream has a line that mentions
/// "ERROR:" or "FAILURE", or its output stream has a line that starts with
/// "ERROR:" or mentions "FAILURE".
pub open spec fn compile_failed(stdout: Seq<char>, stderr: Seq<char>) -> bool {
    ||| (exists|i: int| occurs_at(stderr, "ERROR:"@, i))
    ||| (exists|i: int| occurs_at(stderr, "FAILURE"@, i))
    ||| (exists|i: int| line_starts_at(stdout, "ERROR:"@, i))
    ||| (exists|i: int| occurs_at(stdout, "FAILURE"@, i))
}

/// Finds `pat` in `s` at some position, only at line starts when `line_start`.
fn find_marker(s: &Vec<char>, pat: &Vec<char>, line_start: bool) -> (r: bool)
    requires
        pat@.len() > 0,
    ensures
        r == if line_start {
            exists|i: int| line_starts_at(s@, pat@, i)
        } else {
            exists|i: int| occurs_at(s@, pat@, i)
        },
{
    let n = s.len();
    let m = pat.len();
    if m > n {
        assert(forall|i: int| !occurs_at(s@, pat@, i));
        return false;
    }
    let mut i: usize = 0;
    while i <= n - m
        invariant
            n == s@.len(),
            m == pat@.len(),
            0 < m <= n,
            i <= n - m + 1,
            forall|j: int| 0 <= j < i ==> !(#[trigger] occurs_at(s@, pat@, j) && (!line_start || j == 0 || s@[j - 1] == '\n')),
        decreases n - m + 1 - i,
    {
        let at_line = !line_start || i == 0 || s[i - 1] == '\n';
        if at_line {
            let mut k: usize = 0;
            let mut same = true;
            while k < m
                invariant
                    n == s@.len(),
                    m == pat@.len(),
                    i + m <= n,
                    k <= m,
                    same == (forall|t: int| 0 <= t < k ==> s@[i + t] == pat@[t]),
                decreases m - k,
            {
                if s[i + k] != pat[k] {
                    same = false;
                }
                k = k + 1;
            }
            if same {
                assert(s@.subrange(i as int, i + m) =~= pat@);
                assert(occurs_at(s@, pat@, i as int));
                assert(line_start ==> line_starts_at(s@, pat@, i as int));
                return true;
            }
            assert(!occurs_at(s@, pat@, i as int)) by {
                let t = choose|t: int| 0 <= t < m && s@[i + t] != pat@[t];
                assert(s@.subrange(i as int, i + m)[t] == s@[i + t]);
            }
        }
        i = i + 1;
    }
    assert forall|j: int| !(#[trigger] occurs_at(s@, pat@, j) && (!line_start || j == 0 || s@[j - 1] == '\n')) by {
        if occurs_at(s@, pat@, j) {
            assert(j < i);
        }
    }
    false
}

/// Whether the compiler's output reports a failure.
pub fn sclang_failed(stdout: &str, stderr: &str) -> (r: bool)
    ensures
        r == compile_failed(stdout@, stderr@),
{
    let out = chars_of(stdout);
    let err = chars_of(stderr);
    proof {
        reveal_strlit("ERROR:");
        reveal_strlit("FAILURE");
    }
    let error = chars_of("ERROR:");
    let failure = chars_of("FAILURE");
    let a = find_marker(&err, &error, false);
    let b = find_marker(&err, &failure, false);
    let c = find_marker(&out, &error, true);
    let d = find_marker(&out, &failure, false);
    a || b || c || d
}

/// The file name of a recording started `secs` seconds after the Unix epoch.
pub open spec fn recording_name(prefix: Seq<char>, secs: u64) -> Seq<char> {
    prefix + "_"@ + decimal(secs as nat) + ".wav"@
}

/// The file name of a recording: the prefix, the start time in seconds since the
/// Unix epoch, and `.wav`.
pub fn recording_file_name(prefix: &str, secs: u64) -> (r: String)
    ensures
        r@ == recording_name(prefix@, secs),
{
    let mut s = String::from_str(prefix);
    s.append("_");
    push_decimal(&mut s, secs);
    s.append(".wav");
    s
}

} // verus!
