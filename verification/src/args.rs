//! Command-line argument interpretation.
//!
//! The parser scans the raw argument list (the first entry is the program
//! name and is skipped). It recognizes the help and version flags in short
//! and long form, silently ignores every other token that begins with `-`,
//! and takes the first remaining non-empty token as the subject whose
//! profile is to be fetched. It cannot fail: a missing subject is an empty
//! string, left for the run plan to handle.

use vstd::prelude::*;
use vstd::string::StrSliceExecFns;
use vstd::string::StringExecFns;

verus! {

/// What one invocation asked for, read off the argument list once.
#[derive(Debug, PartialEq, Eq)]
pub struct InvocationArgs {
    pub show_help: bool,
    pub show_version: bool,
    /// The account whose profile is to be fetched; empty when none was given.
    pub subject: String,
}

/// A help flag, in short or long form.
pub open spec fn is_help_token(t: Seq<char>) -> bool {
    t == "-h"@ || t == "--help"@
}

/// A version flag, in short or long form.
pub open spec fn is_version_token(t: Seq<char>) -> bool {
    t == "-V"@ || t == "--version"@
}

/// A token that begins with `-`: a flag, recognized or not.
pub open spec fn is_flag_like(t: Seq<char>) -> bool {
    t.len() > 0 && t[0] == '-'
}

/// A token that can become the subject: non-empty and not flag-like.
pub open spec fn is_subject_token(t: Seq<char>) -> bool {
    t.len() > 0 && t[0] != '-'
}

/// The argument tokens a run actually interprets: everything after the
/// program name.
pub open spec fn tokens_of(args: Seq<String>) -> Seq<Seq<char>> {
    if args.len() == 0 {
        Seq::empty()
    } else {
        args.skip(1).map_values(|a: String| a@)
    }
}

/// Whether some token asks for help.
pub open spec fn has_help(ts: Seq<Seq<char>>) -> bool {
    ts.contains("-h"@) || ts.contains("--help"@)
}

/// Whether some token asks for the version.
pub open spec fn has_version(ts: Seq<Seq<char>>) -> bool {
    ts.contains("-V"@) || ts.contains("--version"@)
}

/// Whether some token could serve as the subject.
pub open spec fn has_subject(ts: Seq<Seq<char>>) -> bool {
    exists|i: int| 0 <= i < ts.len() && is_subject_token(#[trigger] ts[i])
}

/// The first subject token of the list, or the empty string when there is
/// none.
pub open spec fn first_subject(ts: Seq<Seq<char>>) -> Seq<char>
    decreases ts.len(),
{
    if ts.len() == 0 {
        Seq::empty()
    } else if is_subject_token(ts[0]) {
        ts[0]
    } else {
        first_subject(ts.drop_first())
    }
}

/// The full relation between an argument list and what the parser returns.
pub open spec fn parses(args: Seq<String>, r: InvocationArgs) -> bool {
    &&& r.show_help == has_help(tokens_of(args))
    &&& r.show_version == has_version(tokens_of(args))
    &&& r.subject@ == first_subject(tokens_of(args))
}

/// Read the flags and the subject off the raw argument list.
pub fn parse_args(args: &Vec<String>) -> (r: InvocationArgs)
    ensures
        parses(args@, r),
{
    let h_short = String::from_str("-h");
    let h_long = String::from_str("--help");
    let v_short = String::from_str("-V");
    let v_long = String::from_str("--version");
    let mut show_help = false;
    let mut show_version = false;
    let mut subject = String::new();
    let ghost ts = tokens_of(args@);
    let mut i: usize = 1;
    while i < args.len()
        invariant
            1 <= i,
            args@.len() >= 1 ==> i <= args@.len(),
            args@.len() == 0 ==> i == 1,
            h_short@ == "-h"@,
            h_long@ == "--help"@,
            v_short@ == "-V"@,
            v_long@ == "--version"@,
            ts == tokens_of(args@),
            args@.len() >= 1 ==> ts.len() == args@.len() - 1,
            args@.len() == 0 ==> ts.len() == 0,
            show_help == has_help(ts.take(i - 1)),
            show_version == has_version(ts.take(i - 1)),
            subject@ == first_subject(ts.take(i - 1)),
        decreases args@.len() - i,
    {
        let a = &args[i];
        let ghost prev = ts.take(i - 1);
        let ghost t = a@;
        proof {
            reveal_strlit("-h");
            reveal_strlit("--help");
            reveal_strlit("-V");
            reveal_strlit("--version");
            assert("-h"@.len() == 2 && "-V"@.len() == 2 && "--help"@.len() == 6
                && "--version"@.len() == 9);
            assert("-h"@[1] == 'h' && "-V"@[1] == 'V');
            assert("-h"@ != "-V"@);
            assert(ts[i - 1] == args@[i as int]@);
            assert(ts.take(i as int) =~= prev.push(t));
            lemma_contains_push(prev, t, "-h"@);
            lemma_contains_push(prev, t, "--help"@);
            lemma_contains_push(prev, t, "-V"@);
            lemma_contains_push(prev, t, "--version"@);
            lemma_first_subject_push(prev, t);
            lemma_first_subject_empty(prev);
        }
        if *a == h_short || *a == h_long {
            show_help = true;
        } else if *a == v_short || *a == v_long {
            show_version = true;
        } else if !a.as_str().is_empty() && a.as_str().get_char(0) == '-' {
            // an unrecognized flag: dropped
        } else {
            if subject.as_str().is_empty() && !a.as_str().is_empty() {
                subject = a.clone();
            }
        }
        i = i + 1;
    }
    proof {
        if args@.len() == 0 {
            assert(ts.take(i - 1) =~= ts);
        } else {
            assert(ts.take(i - 1) =~= ts);
        }
    }
    InvocationArgs { show_help, show_version, subject }
}

proof fn lemma_contains_push<A>(ts: Seq<A>, t: A, x: A)
    ensures
        ts.push(t).contains(x) == (ts.contains(x) || t == x),
{
    let p = ts.push(t);
    if ts.contains(x) {
        let i = choose|i: int| 0 <= i < ts.len() && ts[i] == x;
        assert(p[i] == x);
    }
    if t == x {
        assert(p[ts.len() as int] == x);
    }
    if p.contains(x) {
        let i = choose|i: int| 0 <= i < p.len() && p[i] == x;
        if i < ts.len() {
            assert(ts[i] == x);
        }
    }
}

proof fn lemma_has_subject_shift(ts: Seq<Seq<char>>)
    requires
        ts.len() > 0,
        !is_subject_token(ts[0]),
    ensures
        has_subject(ts) == has_subject(ts.drop_first()),
{
    if has_subject(ts) {
        let i = choose|i: int| 0 <= i < ts.len() && is_subject_token(#[trigger] ts[i]);
        assert(ts.drop_first()[i - 1] == ts[i]);
    }
    if has_subject(ts.drop_first()) {
        let i = choose|i: int|
            0 <= i < ts.drop_first().len() && is_subject_token(#[trigger] ts.drop_first()[i]);
        assert(ts[i + 1] == ts.drop_first()[i]);
        assert(is_subject_token(ts[i + 1]));
    }
}

/// The first subject is empty exactly when no token could serve as the
/// subject; when one can, the first subject is itself a subject token.
pub proof fn lemma_first_subject_empty(ts: Seq<Seq<char>>)
    ensures
        (first_subject(ts) == Seq::<char>::empty()) <==> !has_subject(ts),
        has_subject(ts) ==> is_subject_token(first_subject(ts)),
    decreases ts.len(),
{
    if ts.len() == 0 {
        assert(!has_subject(ts));
    } else if is_subject_token(ts[0]) {
        assert(has_subject(ts));
        assert(first_subject(ts).len() > 0);
        assert(first_subject(ts) != Seq::<char>::empty());
    } else {
        lemma_first_subject_empty(ts.drop_first());
        lemma_has_subject_shift(ts);
    }
}

/// Appending one token changes the first subject only when no earlier token
/// could serve as the subject.
pub proof fn lemma_first_subject_push(ts: Seq<Seq<char>>, t: Seq<char>)
    ensures
        first_subject(ts.push(t)) == (if has_subject(ts) {
            first_subject(ts)
        } else if is_subject_token(t) {
            t
        } else {
            Seq::<char>::empty()
        }),
    decreases ts.len(),
{
    let p = ts.push(t);
    if ts.len() == 0 {
        assert(p[0] == t);
        assert(!has_subject(ts));
        if !is_subject_token(t) {
            assert(p.drop_first() =~= Seq::<Seq<char>>::empty());
            assert(first_subject(Seq::<Seq<char>>::empty()) == Seq::<char>::empty());
            assert(first_subject(p) == first_subject(p.drop_first()));
        }
    } else {
        assert(p[0] == ts[0]);
        if is_subject_token(ts[0]) {
            assert(has_subject(ts));
            assert(first_subject(p) == p[0]);
        } else {
            assert(p.drop_first() =~= ts.drop_first().push(t));
            lemma_first_subject_push(ts.drop_first(), t);
            lemma_has_subject_shift(ts);
            assert(first_subject(p) == first_subject(p.drop_first()));
            assert(first_subject(ts) == first_subject(ts.drop_first()));
        }
    }
}

/// At most one subject is ever extracted: when any token can serve as the
/// subject, the parsed subject is exactly the first such token, and every
/// token before it is a flag or empty; when none can, the subject is empty.
pub proof fn lemma_at_most_one_subject(ts: Seq<Seq<char>>)
    ensures
        !has_subject(ts) ==> first_subject(ts) == Seq::<char>::empty(),
        has_subject(ts) ==> exists|i: int|
            0 <= i < ts.len() && is_subject_token(#[trigger] ts[i]) && first_subject(ts) == ts[i]
                && (forall|j: int| 0 <= j < i ==> !is_subject_token(#[trigger] ts[j])),
    decreases ts.len(),
{
    lemma_first_subject_empty(ts);
    if ts.len() == 0 {
    } else if is_subject_token(ts[0]) {
        assert(0 <= 0 < ts.len() && is_subject_token(ts[0]) && first_subject(ts) == ts[0] && (
        forall|j: int| 0 <= j < 0 ==> !is_subject_token(#[trigger] ts[j])));
    } else {
        lemma_at_most_one_subject(ts.drop_first());
        lemma_has_subject_shift(ts);
        if has_subject(ts) {
            let tail = ts.drop_first();
            let i0 = choose|i: int|
                0 <= i < tail.len() && is_subject_token(#[trigger] tail[i]) && first_subject(tail)
                    == tail[i] && (forall|j: int|
                    0 <= j < i ==> !is_subject_token(#[trigger] tail[j]));
            assert(ts[i0 + 1] == tail[i0]);
            assert forall|j: int| 0 <= j < i0 + 1 implies !is_subject_token(#[trigger] ts[j]) by {
                if j >= 1 {
                    assert(ts[j] == tail[j - 1]);
                }
            }
            assert(0 <= i0 + 1 < ts.len() && is_subject_token(ts[i0 + 1]) && first_subject(ts)
                == ts[i0 + 1] && (forall|j: int|
                0 <= j < i0 + 1 ==> !is_subject_token(#[trigger] ts[j])));
        }
    }
}

/// The recognized flags are order-independent: two token lists made of the
/// same tokens, in any order and multiplicity, ask for help and for the
/// version alike.
pub proof fn lemma_flags_order_independent(a: Seq<Seq<char>>, b: Seq<Seq<char>>)
    requires
        a.to_set() == b.to_set(),
    ensures
        has_help(a) == has_help(b),
        has_version(a) == has_version(b),
{
    assert(a.to_set().contains("-h"@) == a.contains("-h"@));
    assert(b.to_set().contains("-h"@) == b.contains("-h"@));
    assert(a.to_set().contains("--help"@) == a.contains("--help"@));
    assert(b.to_set().contains("--help"@) == b.contains("--help"@));
    assert(a.to_set().contains("-V"@) == a.contains("-V"@));
    assert(b.to_set().contains("-V"@) == b.contains("-V"@));
    assert(a.to_set().contains("--version"@) == a.contains("--version"@));
    assert(b.to_set().contains("--version"@) == b.contains("--version"@));
}

/// Tokens that look like flags but are not recognized ones never affect the
/// result: inserting such a token anywhere in the list leaves the subject
/// unchanged, and leaves each recognized flag unchanged unless the inserted
/// token is that flag itself.
pub proof fn lemma_flag_like_tokens_ignored(ts: Seq<Seq<char>>, k: int, t: Seq<char>)
    requires
        0 <= k <= ts.len(),
        is_flag_like(t),
    ensures
        first_subject(ts.insert(k, t)) == first_subject(ts),
        !is_help_token(t) ==> has_help(ts.insert(k, t)) == has_help(ts),
        !is_version_token(t) ==> has_version(ts.insert(k, t)) == has_version(ts),
    decreases ts.len(),
{
    let p = ts.insert(k, t);
    ts.insert_ensures(k, t);
    lemma_contains_insert(ts, k, t, "-h"@);
    lemma_contains_insert(ts, k, t, "--help"@);
    lemma_contains_insert(ts, k, t, "-V"@);
    lemma_contains_insert(ts, k, t, "--version"@);
    if k == 0 {
        assert(p[0] == t);
        assert(!is_subject_token(t));
        assert(p.drop_first() =~= ts);
    } else {
        assert(p[0] == ts[0]);
        if is_subject_token(ts[0]) {
        } else {
            let tail = ts.drop_first();
            tail.insert_ensures(k - 1, t);
            assert(p.drop_first() =~= tail.insert(k - 1, t));
            lemma_flag_like_tokens_ignored(tail, k - 1, t);
        }
    }
}

proof fn lemma_contains_insert<A>(ts: Seq<A>, k: int, t: A, x: A)
    requires
        0 <= k <= ts.len(),
    ensures
        ts.insert(k, t).contains(x) == (ts.contains(x) || t == x),
{
    let p = ts.insert(k, t);
    ts.insert_ensures(k, t);
    if ts.contains(x) {
        let i = choose|i: int| 0 <= i < ts.len() && ts[i] == x;
        if i < k {
            assert(p[i] == x);
        } else {
            assert(p[i + 1] == x);
        }
    }
    if t == x {
        assert(p[k] == x);
    }
    if p.contains(x) {
        let i = choose|i: int| 0 <= i < p.len() && p[i] == x;
        if i < k {
            assert(ts[i] == x);
        } else if i > k {
            assert(ts[i - 1] == x);
        }
    }
}

/// Parsing has no hidden state: any two results of parsing the same
/// argument list agree on every field.
pub proof fn lemma_parse_idempotent(args: Seq<String>, r1: InvocationArgs, r2: InvocationArgs)
    requires
        parses(args, r1),
        parses(args, r2),
    ensures
        r1.show_help == r2.show_help,
        r1.show_version == r2.show_version,
        r1.subject@ == r2.subject@,
{
}

} // verus!
