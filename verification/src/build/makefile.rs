//! The include directories that the host's generated makefile names.
//!
//! The makefile lists them in the variable `ALL_INCS`, one `-I` flag to a
//! line, each line but the last ending with a backslash:
//!
//! ```text
//! ALL_INCS = -I src/core \
//!     -I src/event \
//!     -I objs
//! ```

use crate::build::text::{
    begins_with, copy_range, find, find_in, lemma_texts_push, lines, split_lines, starts_with,
    texts, trim, trimmed,
};
use vstd::prelude::*;

verus! {

/// The flag that stands before an include directory: `-I` and a space.
pub open spec fn i_flag() -> Seq<char> {
    seq!['-', 'I', ' ']
}

/// The name of the makefile's variable: `ALL_INCS`.
pub open spec fn all_incs() -> Seq<char> {
    seq!['A', 'L', 'L', '_', 'I', 'N', 'C', 'S']
}

/// The directory in the text `s` behind a flag: `s` itself, or, where `s`
/// ends with a backslash, what stands before the backslash, without the
/// white space around it.
pub open spec fn include_part(s: Seq<char>) -> Seq<char> {
    if s.len() > 0 && s.last() == '\\' {
        trim(s.drop_last())
    } else {
        s
    }
}

/// What stands in `rest` before the next flag, or all of it where no flag
/// follows.
pub open spec fn up_to_flag(rest: Seq<char>) -> Seq<char> {
    match find(rest, i_flag()) {
        Some(j) => rest.take(j),
        None => rest,
    }
}

/// The directory behind the first `-I` flag of `line`, if the line has
/// the flag: the text between that flag and the next one.
pub open spec fn after_i_flag(line: Seq<char>) -> Option<Seq<char>> {
    match find(line, i_flag()) {
        Some(i) => Some(include_part(up_to_flag(line.skip(i + 3)))),
        None => None,
    }
}

/// The directories that the lines from line `k` on name. Before the
/// variable was seen (`started` is false), lines are passed over until one
/// begins with the variable's name; that line counts with what follows the
/// name. From then on each line with a flag names one directory, and the
/// first line without a flag ends the list.
pub open spec fn scan(all: Seq<Seq<char>>, k: int, started: bool) -> Seq<Seq<char>>
    decreases all.len() - k,
{
    if k < 0 || k >= all.len() {
        Seq::empty()
    } else if !started {
        if starts_with(all[k], all_incs()) {
            match after_i_flag(all[k].skip(8)) {
                Some(part) => seq![part] + scan(all, k + 1, true),
                None => scan(all, k + 1, true),
            }
        } else {
            scan(all, k + 1, false)
        }
    } else {
        match after_i_flag(all[k]) {
            Some(part) => seq![part] + scan(all, k + 1, true),
            None => Seq::empty(),
        }
    }
}

/// The include directories that the makefile `text` names, in their
/// order.
pub open spec fn includes(text: Seq<char>) -> Seq<Seq<char>> {
    scan(lines(text), 0, false)
}

fn flag() -> (f: Vec<char>)
    ensures
        f@ == i_flag(),
{
    let f = vec!['-', 'I', ' '];
    assert(f@ =~= i_flag());
    f
}

fn variable() -> (f: Vec<char>)
    ensures
        f@ == all_incs(),
{
    let f = vec!['A', 'L', 'L', '_', 'I', 'N', 'C', 'S'];
    assert(f@ =~= all_incs());
    f
}

/// The directory in the text `s` behind a flag.
pub fn extract_include_part(s: &[char]) -> (r: Vec<char>)
    ensures
        r@ == include_part(s@),
{
    let n = s.len();
    if n > 0 && s[n - 1] == '\\' {
        let head = vstd::slice::slice_subrange(s, 0, n - 1);
        assert(head@ =~= s@.drop_last());
        trimmed(head)
    } else {
        let r = copy_range(s, 0, n);
        assert(r@ =~= s@);
        r
    }
}

/// The directory behind the first `-I` flag of `line`, if the line has
/// the flag.
pub fn extract_after_i_flag(line: &[char]) -> (r: Option<Vec<char>>)
    ensures
        r.is_some() == after_i_flag(line@).is_some(),
        r matches Some(v) ==> after_i_flag(line@) == Some(v@),
{
    let f = flag();
    let n = line.len();
    match find_in(line, f.as_slice(), 0) {
        None => None,
        Some(i) => {
            let rest = vstd::slice::slice_subrange(line, i + 3, n);
            assert(rest@ =~= line@.skip(i + 3));
            let seg = match find_in(rest, f.as_slice(), 0) {
                Some(j) => {
                    let seg = vstd::slice::slice_subrange(rest, 0, j);
                    assert(seg@ =~= rest@.take(j as int));
                    seg
                },
                None => rest,
            };
            Some(extract_include_part(seg))
        },
    }
}

/// The include directories that the makefile `text` names, in their
/// order.
pub fn parse_includes_from_makefile(text: &[char]) -> (out: Vec<Vec<char>>)
    ensures
        texts(out@) == includes(text@),
{
    let all = split_lines(text);
    let name = variable();
    let mut out: Vec<Vec<char>> = Vec::new();
    let mut started = false;
    let mut k: usize = 0;
    let mut done = false;
    assert(texts(out@) =~= Seq::<Seq<char>>::empty());
    while k < all.len() && !done
        invariant
            k <= all@.len(),
            name@ == all_incs(),
            !done ==> texts(out@) + scan(texts(all@), k as int, started) == includes(text@),
            done ==> texts(out@) == includes(text@),
            texts(all@) == lines(text@),
        decreases all@.len() - k + (if done { 0int } else { 1int }),
    {
        let line = all[k].as_slice();
        assert(texts(all@)[k as int] == line@);
        if !started {
            if begins_with(line, name.as_slice()) {
                started = true;
                let stripped = vstd::slice::slice_subrange(line, 8, line.len());
                assert(stripped@ =~= line@.skip(8));
                match extract_after_i_flag(stripped) {
                    Some(part) => {
                        proof {
                            lemma_texts_push(out@, part);
                            assert(texts(out@).push(part@) + scan(texts(all@), k + 1, true)
                                =~= texts(out@) + (seq![part@] + scan(texts(all@), k + 1, true)));
                        }
                        out.push(part);
                    },
                    None => {},
                }
            }
            k = k + 1;
        } else {
            match extract_after_i_flag(line) {
                Some(part) => {
                    proof {
                        lemma_texts_push(out@, part);
                        assert(texts(out@).push(part@) + scan(texts(all@), k + 1, true) =~= texts(
                            out@,
                        ) + (seq![part@] + scan(texts(all@), k + 1, true)));
                    }
                    out.push(part);
                    k = k + 1;
                },
                None => {
                    proof {
                        assert(texts(out@) + Seq::<Seq<char>>::empty() =~= texts(out@));
                    }
                    done = true;
                },
            }
        }
    }
    proof {
        if !done {
            assert(texts(out@) + Seq::<Seq<char>>::empty() =~= texts(out@));
        }
    }
    out
}

} // verus!
