//! Recognising a usable Python: reading `major.minor` out of what an
//! interpreter prints, the version floor, and the order in which the
//! interpreters on the machine are tried.

use vstd::prelude::*;

use crate::text::{
    decimal, digit_of, digit_value, digits_value, is_digit, is_digit_char, lemma_decimal_digits, trim,
    trimmed,
};

verus! {

/// Python minor release from which the downloader works (Python 3.10).
pub const MIN_PYTHON_MINOR: u32 = 10;

/// The maximal runs of ASCII digits in `s`, left to right: what
/// `s.split(|c| !c.is_ascii_digit()).filter(|p| !p.is_empty())` yields.
pub open spec fn digit_runs(s: Seq<char>) -> Seq<Seq<char>>
    decreases s.len(),
{
    if s.len() == 0 {
        Seq::empty()
    } else {
        let prev = digit_runs(s.drop_last());
        let c = s.last();
        if !is_digit(c) {
            prev
        } else if s.len() >= 2 && is_digit(s[s.len() - 2]) {
            prev.update(prev.len() - 1, prev.last().push(c))
        } else {
            prev.push(seq![c])
        }
    }
}

/// A run of digits read as a `u32`, as `str::parse::<u32>` reads it:
/// `None` when the number does not fit.
pub open spec fn run_as_u32(run: Seq<char>) -> Option<u32> {
    if digits_value(run) <= u32::MAX {
        Some(digits_value(run) as u32)
    } else {
        None
    }
}

/// The `(major, minor)` pair that a version text names: the first two runs
/// of digits, each of which must fit in a `u32`.
pub open spec fn version_in(s: Seq<char>) -> Option<(u32, u32)> {
    let runs = digit_runs(s);
    if runs.len() < 2 {
        None
    } else {
        match (run_as_u32(runs[0]), run_as_u32(runs[1])) {
            (Some(major), Some(minor)) => Some((major, minor)),
            _ => None,
        }
    }
}

/// A Python that the downloader can run on: 3.10 or a later 3.x.
pub open spec fn compatible(version: Option<(u32, u32)>) -> bool {
    match version {
        Some((major, minor)) => major == 3 && minor >= MIN_PYTHON_MINOR,
        None => false,
    }
}

/// Every Python 3 from 3.10 on is accepted, later minor releases included,
/// and nothing else is: no other major version, no 3.x before 3.10, and no
/// interpreter that did not answer.
pub proof fn compatible_from_three_ten_on(major: u32, minor: u32, later: u32)
    ensures
        minor >= 10 ==> compatible(Some((3, minor))),
        compatible(Some((major, minor))) && minor <= later ==> compatible(Some((major, later))),
        major != 3 ==> !compatible(Some((major, minor))),
        minor < 10 ==> !compatible(Some((major, minor))),
        !compatible(None),
{
}

proof fn lemma_runs_nonempty(s: Seq<char>)
    requires
        s.len() > 0,
        is_digit(s.last()),
    ensures
        digit_runs(s).len() > 0,
    decreases s.len(),
{
    if s.len() >= 2 && is_digit(s[s.len() - 2]) {
        let p = s.drop_last();
        assert(p.last() == s[s.len() - 2]);
        lemma_runs_nonempty(p);
    }
}

proof fn lemma_runs_len(s: Seq<char>)
    ensures
        digit_runs(s).len() <= s.len(),
    decreases s.len(),
{
    if s.len() > 0 {
        lemma_runs_len(s.drop_last());
        if s.len() >= 2 && is_digit(s[s.len() - 2]) && is_digit(s.last()) {
            let p = s.drop_last();
            assert(p.last() == s[s.len() - 2]);
            lemma_runs_nonempty(p);
        }
    }
}

proof fn lemma_push_value(run: Seq<char>, c: char)
    ensures
        digits_value(run.push(c)) == digits_value(run) * 10 + digit_value(c),
{
    assert(run.push(c).drop_last() =~= run);
}

/// Extends the value of a digit run by one more digit, keeping `None` once
/// the run no longer fits in a `u32`.
fn extend_run(value: Option<u32>, digit: u32) -> (res: Option<u32>)
    requires
        digit < 10,
    ensures
        forall|run: Seq<char>, c: char|
            value == run_as_u32(run) && is_digit(c) && digit == digit_value(c) ==> res
                == run_as_u32(#[trigger] run.push(c)),
{
    let res = match value {
        Some(v) => {
            let w: u64 = (v as u64) * 10 + (digit as u64);
            if w <= u32::MAX as u64 {
                Some(w as u32)
            } else {
                None
            }
        },
        None => None,
    };
    proof {
        assert forall|run: Seq<char>, c: char|
            value == run_as_u32(run) && is_digit(c) && digit == digit_value(c) implies res
                == run_as_u32(#[trigger] run.push(c)) by {
            lemma_push_value(run, c);
        }
    }
    res
}

/// Reads `(major, minor)` out of a version text such as `"3.12"` or
/// `"Python 3.9.6"`: the first two runs of digits. `None` when there are
/// fewer than two, or when one of them does not fit in a `u32`.
pub fn parse_python_version(raw: &str) -> (res: Option<(u32, u32)>)
    ensures
        res == version_in(raw@),
{
    let n = raw.unicode_len();
    let mut i: usize = 0;
    let mut runs: usize = 0;
    let mut in_run = false;
    let mut major: Option<u32> = None;
    let mut minor: Option<u32> = None;
    assert(raw@.take(0) =~= Seq::<char>::empty());
    while i < n
        invariant
            i <= n,
            n == raw@.len(),
            runs == digit_runs(raw@.take(i as int)).len(),
            runs <= i,
            in_run == (i > 0 && is_digit(raw@[i - 1])),
            runs >= 1 ==> major == run_as_u32(digit_runs(raw@.take(i as int))[0]),
            runs >= 2 ==> minor == run_as_u32(digit_runs(raw@.take(i as int))[1]),
        decreases n - i,
    {
        let c = raw.get_char(i);
        let ghost before = raw@.take(i as int);
        let ghost after = raw@.take(i + 1);
        let ghost prev = digit_runs(before);
        proof {
            lemma_runs_len(before);
        }
        proof {
            assert(after.drop_last() =~= before);
            assert(after.last() == c);
            if i > 0 {
                assert(after[i - 1] == raw@[i - 1]);
            }
        }
        if is_digit_char(c) {
            let d = digit_of(c);
            if in_run {
                proof {
                    assert(before.last() == raw@[i - 1]);
                    lemma_runs_nonempty(before);
                }
                let ghost next = prev.update(prev.len() - 1, prev.last().push(c));
                assert(digit_runs(after) == next);
                if runs == 1 {
                    major = extend_run(major, d);
                } else if runs == 2 {
                    minor = extend_run(minor, d);
                }
            } else {
                let ghost next = prev.push(seq![c]);
                assert(digit_runs(after) == next);
                proof {
                    assert(seq![c] =~= Seq::<char>::empty().push(c));
                    lemma_push_value(Seq::<char>::empty(), c);
                }
                if runs == 0 {
                    major = Some(d);
                } else if runs == 1 {
                    minor = Some(d);
                }
                runs = runs + 1;
            }
            in_run = true;
        } else {
            assert(digit_runs(after) == prev);
            in_run = false;
        }
        i = i + 1;
    }
    assert(raw@.take(n as int) =~= raw@);
    if runs < 2 {
        None
    } else {
        match (major, minor) {
            (Some(a), Some(b)) => Some((a, b)),
            _ => None,
        }
    }
}


/// What an interpreter answered to the version probe, read as `(major, minor)`:
/// nothing when the probe failed, else the version in its trimmed output.
pub fn python_version(succeeded: bool, stdout: &str) -> (res: Option<(u32, u32)>)
    ensures
        res == (if succeeded {
            version_in(trimmed(stdout@))
        } else {
            None
        }),
{
    if !succeeded {
        return None;
    }
    let text = trim(stdout);
    parse_python_version(text.as_str())
}

/// Whether a probed interpreter can run the downloader: Python 3.10 or later 3.x.
pub fn is_compatible_python(version: Option<(u32, u32)>) -> (res: bool)
    ensures
        res == compatible(version),
{
    match version {
        Some((major, minor)) => major == 3 && minor >= MIN_PYTHON_MINOR,
        None => false,
    }
}

/// The interpreter names tried on the machine, in order of preference.
pub open spec fn python_candidates() -> Seq<Seq<char>> {
    seq![
        "python3.13"@,
        "python3.12"@,
        "python3.11"@,
        "python3.10"@,
        "python3"@,
        "python"@,
        "py"@,
    ]
}

/// The `index`-th interpreter name to try, if there is one.
pub fn python_candidate(index: usize) -> (res: Option<String>)
    ensures
        index < python_candidates().len() ==> res is Some && res->0@ == python_candidates()[index as int],
        index >= python_candidates().len() ==> res is None,
{
    let name = match index {
        0 => "python3.13",
        1 => "python3.12",
        2 => "python3.11",
        3 => "python3.10",
        4 => "python3",
        5 => "python",
        6 => "py",
        _ => {
            return None;
        },
    };
    Some(name.to_owned())
}

/// None of the first `n` probed interpreters is compatible.
pub open spec fn none_compatible(probed: Seq<Option<(u32, u32)>>, n: int) -> bool {
    forall|j: int| 0 <= j < n ==> !compatible(#[trigger] probed[j])
}

/// The next step of the search for a compatible interpreter.
pub enum PythonSearch {
    /// Probe this interpreter next and report its version.
    Probe(String),
    /// This interpreter is compatible: use it.
    Found(String),
    /// Every candidate was probed and none is compatible.
    Exhausted,
}

/// One step of the search for a system Python: given the versions reported
/// so far by the first candidates, in order, either names the first
/// compatible one, asks for the next candidate to be probed, or gives up.
pub fn find_compatible_python(probed: &Vec<Option<(u32, u32)>>) -> (res: PythonSearch)
    ensures
        match res {
            PythonSearch::Found(name) => exists|i: int|
                {
                    &&& 0 <= i < probed@.len()
                    &&& i < python_candidates().len()
                    &&& compatible(#[trigger] probed@[i])
                    &&& none_compatible(probed@, i)
                    &&& name@ == python_candidates()[i]
                },
            PythonSearch::Probe(name) => {
                &&& probed@.len() < python_candidates().len()
                &&& none_compatible(probed@, probed@.len() as int)
                &&& name@ == python_candidates()[probed@.len() as int]
            },
            PythonSearch::Exhausted => {
                &&& probed@.len() >= python_candidates().len()
                &&& none_compatible(probed@, python_candidates().len() as int)
            },
        },
{
    let count: usize = python_candidates_len();
    let mut i: usize = 0;
    while i < probed.len() && i < count
        invariant
            count == python_candidates().len(),
            i <= probed@.len(),
            i <= count,
            none_compatible(probed@, i as int),
        decreases count - i,
    {
        if is_compatible_python(probed[i]) {
            let name = python_candidate(i);
            match name {
                Some(name) => {
                    return PythonSearch::Found(name);
                },
                None => {
                    return PythonSearch::Exhausted;
                },
            }
        }
        i = i + 1;
    }
    if i < count {
        match python_candidate(i) {
            Some(name) => PythonSearch::Probe(name),
            None => PythonSearch::Exhausted,
        }
    } else {
        PythonSearch::Exhausted
    }
}

fn python_candidates_len() -> (res: usize)
    ensures
        res == python_candidates().len(),
{
    7
}

/// Whether the interpreter of an existing environment can be kept: its
/// `python` must be a file and report a compatible version.
pub fn venv_python_compatible(python_is_file: bool, version: Option<(u32, u32)>) -> (res: bool)
    ensures
        res == (python_is_file && compatible(version)),
{
    python_is_file && is_compatible_python(version)
}


proof fn lemma_runs_append_digits(x: Seq<char>, d: Seq<char>)
    requires
        x.len() == 0 || !is_digit(x.last()),
        d.len() > 0,
        forall|i: int| 0 <= i < d.len() ==> is_digit(#[trigger] d[i]),
    ensures
        digit_runs(x + d) == digit_runs(x).push(d),
    decreases d.len(),
{
    let s = x + d;
    let c = d.last();
    assert(s.last() == c);
    if d.len() == 1 {
        assert(s.drop_last() =~= x);
        if s.len() >= 2 {
            assert(s[s.len() - 2] == x.last());
        }
        assert(seq![c] =~= d);
    } else {
        let shorter = d.drop_last();
        assert forall|i: int| 0 <= i < shorter.len() implies is_digit(#[trigger] shorter[i]) by {
            assert(shorter[i] == d[i]);
        }
        lemma_runs_append_digits(x, shorter);
        assert(s.drop_last() =~= x + shorter);
        assert(s[s.len() - 2] == d[d.len() - 2]);
        let prev = digit_runs(x).push(shorter);
        assert(prev.update(prev.len() - 1, prev.last().push(c)) =~= digit_runs(x).push(d)) by {
            assert(shorter.push(c) =~= d);
        }
    }
}

proof fn lemma_runs_append_other(s: Seq<char>, c: char)
    requires
        !is_digit(c),
    ensures
        digit_runs(s.push(c)) == digit_runs(s),
{
    assert(s.push(c).drop_last() =~= s);
}

/// What the version probe prints, `major.minor`, reads back as the same
/// pair: the probe's output and the version check agree.
pub proof fn version_text_round_trip(major: u32, minor: u32)
    ensures
        version_in(decimal(major as nat) + seq!['.'] + decimal(minor as nat)) == Some(
            (major, minor),
        ),
{
    let a = decimal(major as nat);
    let b = decimal(minor as nat);
    lemma_decimal_digits(major as nat);
    lemma_decimal_digits(minor as nat);
    let empty = Seq::<char>::empty();
    lemma_runs_append_digits(empty, a);
    assert(empty + a =~= a);
    assert(digit_runs(empty) =~= Seq::<Seq<char>>::empty());
    assert(digit_runs(a) == seq![a]);
    lemma_runs_append_other(a, '.');
    assert(a + seq!['.'] =~= a.push('.'));
    let head = a + seq!['.'];
    assert(head.last() == '.');
    lemma_runs_append_digits(head, b);
    let runs = digit_runs(head + b);
    assert(runs == seq![a].push(b));
    assert(runs[0] == a);
    assert(runs[1] == b);
}

} // verus!
