//! Toolchain discovery: the ordered list of candidate paths and the
//! first-existing selection over it.
//!
//! Discovery is layered: a path anchored at a sibling build directory first,
//! then the fixed system install locations, then every directory of the
//! `PATH`-style environment variable, in listed order.  The first candidate
//! that exists wins; nothing is merged and nothing is executed during the
//! search.  The existence checks themselves are effects and are done by the
//! caller; this module computes the candidates and picks the winner from the
//! reported existence flags.

use vstd::prelude::*;
use crate::views;

verus! {

/// Splits a character sequence at every occurrence of `sep`.  Adjacent
/// separators yield empty segments, as the environment variable convention
/// has it.
pub open spec fn split_on(s: Seq<char>, sep: char) -> Seq<Seq<char>>
    decreases s.len(),
{
    if s.len() == 0 {
        seq![s]
    } else if s[0] == sep {
        seq![Seq::<char>::empty()] + split_on(s.skip(1), sep)
    } else {
        let rest = split_on(s.skip(1), sep);
        seq![seq![s[0]] + rest[0]] + rest.skip(1)
    }
}

/// A separator-free sequence is a single segment.
proof fn lemma_split_on_no_sep(s: Seq<char>, sep: char)
    requires
        forall|j: int| 0 <= j < s.len() ==> s[j] != sep,
    ensures
        split_on(s, sep) == seq![s],
    decreases s.len(),
{
    if s.len() == 0 {
    } else {
        lemma_split_on_no_sep(s.skip(1), sep);
        let rest = split_on(s.skip(1), sep);
        assert(seq![s[0]] + rest[0] =~= s);
        assert(rest.skip(1) =~= Seq::<Seq<char>>::empty());
        assert(split_on(s, sep) =~~= seq![s]);
    }
}

/// Splitting peels the segment before the first separator.
proof fn lemma_split_on_first_sep(s: Seq<char>, sep: char, k: int)
    requires
        0 <= k < s.len(),
        s[k] == sep,
        forall|j: int| 0 <= j < k ==> s[j] != sep,
    ensures
        split_on(s, sep) == seq![s.subrange(0, k)] + split_on(s.skip(k + 1), sep),
    decreases k,
{
    if k == 0 {
        assert(s.subrange(0, 0) =~= Seq::<char>::empty());
        assert(split_on(s, sep) =~~= seq![s.subrange(0, 0)] + split_on(s.skip(1), sep));
    } else {
        assert(s.skip(1)[k - 1] == sep);
        assert(forall|j: int| 0 <= j < k - 1 ==> s.skip(1)[j] != sep);
        lemma_split_on_first_sep(s.skip(1), sep, k - 1);
        let rest = split_on(s.skip(1), sep);
        assert(s.skip(1).subrange(0, k - 1) =~= s.subrange(1, k));
        assert(seq![s[0]] + s.subrange(1, k) =~= s.subrange(0, k));
        assert(s.skip(1).skip(k) =~= s.skip(k + 1));
        assert(rest.skip(1) =~= split_on(s.skip(k + 1), sep));
        assert(split_on(s, sep) =~~= seq![s.subrange(0, k)] + split_on(s.skip(k + 1), sep));
    }
}

/// Splits a string at every occurrence of `sep`, keeping empty segments.
pub fn split_list(s: &str, sep: char) -> (r: Vec<String>)
    ensures
        views(r@) == split_on(s@, sep),
{
    let n = s.unicode_len();
    let mut r: Vec<String> = Vec::new();
    let mut start: usize = 0;
    let mut i: usize = 0;
    proof {
        assert(s@.skip(0) =~= s@);
        assert(views(r@) + split_on(s@.skip(0), sep) =~= split_on(s@, sep));
    }
    while i < n
        invariant
            start <= i <= n,
            n == s@.len(),
            forall|j: int| start <= j < i ==> s@[j] != sep,
            split_on(s@, sep) == views(r@) + split_on(s@.skip(start as int), sep),
        decreases n - i,
    {
        if s.get_char(i) == sep {
            let seg = s.substring_char(start, i).to_owned();
            proof {
                let tail = s@.skip(start as int);
                assert(tail[i - start as int] == sep);
                assert(forall|j: int| 0 <= j < i - start as int ==> tail[j] != sep);
                lemma_split_on_first_sep(tail, sep, i - start as int);
                assert(tail.subrange(0, i - start as int) =~= s@.subrange(start as int, i as int));
                assert(tail.skip(i - start as int + 1) =~= s@.skip(i + 1));
            }
            let ghost old_r = r@;
            r.push(seg);
            proof {
                assert(views(r@) =~= views(old_r) + seq![seg@]);
                assert(views(r@) + split_on(s@.skip(i + 1), sep) =~= split_on(s@, sep));
            }
            start = i + 1;
        }
        i += 1;
    }
    let last = s.substring_char(start, n).to_owned();
    proof {
        let tail = s@.skip(start as int);
        assert(forall|j: int| 0 <= j < tail.len() ==> tail[j] != sep);
        lemma_split_on_no_sep(tail, sep);
        assert(tail =~= s@.subrange(start as int, n as int));
    }
    let ghost old_r = r@;
    r.push(last);
    proof {
        assert(views(r@) =~= views(old_r) + seq![last@]);
        assert(views(r@) =~= split_on(s@, sep));
    }
    r
}

/// The fixed candidates, in search order: the sibling build output of the
/// enclosing project, then the system install locations from most global to
/// most local.
pub open spec fn fixed_candidate_views() -> Seq<Seq<char>> {
    seq![
        "../build/ipl_compiler"@,
        "/usr/local/bin/ipl_compiler"@,
        "/usr/bin/ipl_compiler"@,
        "./ipl_compiler"@,
    ]
}

/// The compiler name under a directory; an empty directory entry stands for
/// the bare name, as path joining has it.
pub open spec fn candidate_under(d: Seq<char>) -> Seq<char> {
    if d.len() == 0 {
        "ipl_compiler"@
    } else {
        d + "/ipl_compiler"@
    }
}

/// The whole candidate list: the fixed candidates, then the compiler name
/// under every directory of the `PATH`-style variable, in listed order.
pub open spec fn candidate_views(path_var: Option<String>) -> Seq<Seq<char>> {
    fixed_candidate_views() + (match path_var {
        Some(p) => split_on(p@, ':').map_values(|d: Seq<char>| candidate_under(d)),
        None => Seq::<Seq<char>>::empty(),
    })
}

/// Builds the candidate list for a given value of the `PATH`-style variable
/// (`None` when the variable is unset).
pub fn toolchain_candidates(path_var: &Option<String>) -> (r: Vec<String>)
    ensures
        views(r@) == candidate_views(*path_var),
{
    let mut r: Vec<String> = Vec::new();
    r.push("../build/ipl_compiler".to_owned());
    r.push("/usr/local/bin/ipl_compiler".to_owned());
    r.push("/usr/bin/ipl_compiler".to_owned());
    r.push("./ipl_compiler".to_owned());
    proof {
        assert(views(r@) =~= fixed_candidate_views());
    }
    match path_var {
        None => {
            proof {
                assert(views(r@) =~= candidate_views(*path_var));
            }
        },
        Some(p) => {
            let dirs = split_list(p.as_str(), ':');
            let ghost mapped = split_on(p@, ':').map_values(|d: Seq<char>| candidate_under(d));
            proof {
                assert(views(r@) =~= fixed_candidate_views() + mapped.take(0));
            }
            let mut k: usize = 0;
            while k < dirs.len()
                invariant
                    k <= dirs@.len(),
                    views(dirs@) == split_on(p@, ':'),
                    mapped == split_on(p@, ':').map_values(|d: Seq<char>| candidate_under(d)),
                    views(r@) == fixed_candidate_views() + mapped.take(k as int),
                decreases dirs@.len() - k,
            {
                let cand = if dirs[k].as_str().is_empty() {
                    "ipl_compiler".to_owned()
                } else {
                    dirs[k].clone().concat("/ipl_compiler")
                };
                proof {
                    assert(views(dirs@)[k as int] == dirs@[k as int]@);
                    assert(mapped[k as int] == candidate_under(split_on(p@, ':')[k as int]));
                }
                let ghost old_r = r@;
                r.push(cand);
                proof {
                    assert(views(r@) =~= views(old_r) + seq![cand@]);
                    assert(views(r@) =~= fixed_candidate_views() + mapped.take(k as int + 1));
                }
                k += 1;
            }
            proof {
                assert(mapped.take(dirs@.len() as int) =~= mapped);
                assert(views(r@) =~= candidate_views(*path_var));
            }
        },
    }
    r
}

/// The index of the first true flag, if any.
pub open spec fn first_true(s: Seq<bool>) -> Option<int>
    decreases s.len(),
{
    if s.len() == 0 {
        None
    } else if s[0] {
        Some(0int)
    } else {
        match first_true(s.skip(1)) {
            Some(i) => Some(i + 1),
            None => None,
        }
    }
}

/// A true flag behind nothing but false flags is the first.
proof fn lemma_first_true_at(s: Seq<bool>, i: int)
    requires
        0 <= i < s.len(),
        s[i],
        forall|j: int| 0 <= j < i ==> !s[j],
    ensures
        first_true(s) == Some(i),
    decreases i,
{
    if i == 0 {
    } else {
        assert(s.skip(1)[i - 1]);
        assert(forall|j: int| 0 <= j < i - 1 ==> !s.skip(1)[j]);
        lemma_first_true_at(s.skip(1), i - 1);
    }
}

/// With no true flag there is no first one.
proof fn lemma_first_true_none(s: Seq<bool>)
    requires
        forall|j: int| 0 <= j < s.len() ==> !s[j],
    ensures
        first_true(s) is None,
    decreases s.len(),
{
    if s.len() == 0 {
    } else {
        assert(forall|j: int| 0 <= j < s.skip(1).len() ==> !s.skip(1)[j]);
        lemma_first_true_none(s.skip(1));
    }
}

/// Picks the first candidate reported present: the index of the first true
/// flag, in the order the flags were given, or `None` when none is true.
pub fn first_existing(present: &Vec<bool>) -> (r: Option<usize>)
    ensures
        r matches Some(u) ==> (u < present@.len() && present@[u as int] && (forall|j: int|
            0 <= j < u ==> !present@[j]) && first_true(present@) == Some(u as int)),
        r is None ==> ((forall|j: int| 0 <= j < present@.len() ==> !present@[j]) && first_true(
            present@,
        ) is None),
{
    let mut i: usize = 0;
    while i < present.len()
        invariant
            i <= present@.len(),
            forall|j: int| 0 <= j < i ==> !present@[j],
        decreases present@.len() - i,
    {
        if present[i] {
            proof {
                lemma_first_true_at(present@, i as int);
            }
            return Some(i);
        }
        i += 1;
    }
    proof {
        lemma_first_true_none(present@);
    }
    None
}

} // verus!
