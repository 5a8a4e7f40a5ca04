//! The constraint translator: splits an interpreter-version constraint
//! string on commas and extracts, from each segment, the run of comparison
//! operator characters and the run of version-literal characters.
//!
//! Both extractions are character-class filters over the same segment,
//! preserving character order; every other character (whitespace included)
//! is discarded, so a segment needs no separate trimming.

use vstd::prelude::*;
use vstd::string::*;
use crate::strutil::push_char;

verus! {

/// Characters that make up a comparison operator.
pub open spec fn is_op_char(c: char) -> bool {
    c == '!' || c == '=' || c == '<' || c == '>' || c == '~'
}

/// Characters that make up a version literal: digits, dots and asterisks.
pub open spec fn is_ver_char(c: char) -> bool {
    c == '.' || c == '*' || (48 <= c as u32 && c as u32 <= 57)
}

/// The operator characters of `s`, in order.
pub open spec fn op_filter(s: Seq<char>) -> Seq<char>
    decreases s.len(),
{
    if s.len() == 0 {
        Seq::empty()
    } else {
        let rest = op_filter(s.drop_last());
        if is_op_char(s.last()) {
            rest.push(s.last())
        } else {
            rest
        }
    }
}

/// The version-literal characters of `s`, in order.
pub open spec fn ver_filter(s: Seq<char>) -> Seq<char>
    decreases s.len(),
{
    if s.len() == 0 {
        Seq::empty()
    } else {
        let rest = ver_filter(s.drop_last());
        if is_ver_char(s.last()) {
            rest.push(s.last())
        } else {
            rest
        }
    }
}

/// `s` split on `','`: always at least one segment, and an empty input
/// gives one empty segment.
pub open spec fn split_commas(s: Seq<char>) -> Seq<Seq<char>>
    decreases s.len(),
{
    if s.len() == 0 {
        seq![Seq::<char>::empty()]
    } else {
        let rest = split_commas(s.drop_last());
        if s.last() == ',' {
            rest.push(Seq::empty())
        } else {
            rest.update(rest.len() - 1, rest.last().push(s.last()))
        }
    }
}

pub proof fn lemma_split_commas_nonempty(s: Seq<char>)
    ensures
        split_commas(s).len() >= 1,
    decreases s.len(),
{
    if s.len() > 0 {
        lemma_split_commas_nonempty(s.drop_last());
    }
}

/// One constraint clause: a comparison operator and a version literal,
/// both extracted from the same constraint segment.
#[derive(Debug, PartialEq)]
pub struct Clause {
    pub op: String,
    pub ver: String,
}

/// Mathematical model of a clause.
#[verifier::ext_equal]
pub struct ClauseView {
    pub op: Seq<char>,
    pub ver: Seq<char>,
}

impl View for Clause {
    type V = ClauseView;

    open spec fn view(&self) -> ClauseView {
        ClauseView { op: self.op@, ver: self.ver@ }
    }
}

/// The clause that one constraint segment denotes.
pub open spec fn clause_of(seg: Seq<char>) -> ClauseView {
    ClauseView { op: op_filter(seg), ver: ver_filter(seg) }
}

/// All clauses of a constraint string, one per comma-separated segment.
pub open spec fn clauses_of(s: Seq<char>) -> Seq<ClauseView> {
    split_commas(s).map_values(|seg: Seq<char>| clause_of(seg))
}

/// The models of an executable clause list.
pub open spec fn clause_views(cs: Seq<Clause>) -> Seq<ClauseView> {
    cs.map_values(|c: Clause| c@)
}

fn is_op_char_exec(c: char) -> (r: bool)
    ensures
        r == is_op_char(c),
{
    c == '!' || c == '=' || c == '<' || c == '>' || c == '~'
}

fn is_ver_char_exec(c: char) -> (r: bool)
    ensures
        r == is_ver_char(c),
{
    let u: u32 = c as u32;
    c == '.' || c == '*' || (48 <= u && u <= 57)
}

/// Parses a comma-separated constraint string into its clauses.
///
/// Parsing never fails: each segment yields exactly one clause, made of
/// whatever operator and version-literal characters it holds (possibly
/// none). The `Result` signature leaves room for future validation.
pub fn parse_spec(spectxts: &str) -> (r: Result<Vec<Clause>, String>)
    ensures
        r is Ok,
        clause_views(r->Ok_0@) == clauses_of(spectxts@),
{
    let n: usize = spectxts.unicode_len();
    let mut result: Vec<Clause> = Vec::new();
    let mut op = String::new();
    let mut ver = String::new();
    let mut i: usize = 0;
    proof {
        assert(spectxts@.take(0) =~= Seq::<char>::empty());
    }
    while i < n
        invariant
            n == spectxts@.len(),
            i <= n,
            split_commas(spectxts@.take(i as int)).len() == result@.len() + 1,
            clause_views(result@) =~~= split_commas(spectxts@.take(i as int)).drop_last()
                .map_values(|seg: Seq<char>| clause_of(seg)),
            op@ == op_filter(split_commas(spectxts@.take(i as int)).last()),
            ver@ == ver_filter(split_commas(spectxts@.take(i as int)).last()),
        decreases n - i,
    {
        let ghost pre = spectxts@.take(i as int);
        let ghost post = spectxts@.take(i as int + 1);
        proof {
            assert(post.drop_last() =~= pre);
            assert(post.last() == spectxts@[i as int]);
            lemma_split_commas_nonempty(pre);
        }
        let c = spectxts.get_char(i);
        if c == ',' {
            let ghost prev = result@;
            result.push(Clause { op, ver });
            op = String::new();
            ver = String::new();
            proof {
                let segs = split_commas(pre);
                assert(split_commas(post) =~= segs.push(Seq::<char>::empty()));
                assert(split_commas(post).drop_last() =~= segs);
                assert(clause_views(result@).len() == segs.len());
                assert(clause_views(result@).last() =~~= clause_of(segs.last()));
                assert forall|j: int| 0 <= j < segs.len() - 1 implies clause_views(result@)[j]
                    =~~= clause_of(segs[j]) by {
                    assert(clause_views(result@)[j] == clause_views(prev)[j]);
                    assert(clause_views(prev)[j] == segs.drop_last().map_values(
                        |seg: Seq<char>| clause_of(seg),
                    )[j]);
                    assert(segs.drop_last()[j] == segs[j]);
                }
                assert(clause_views(result@) =~~= segs.map_values(
                    |seg: Seq<char>| clause_of(seg),
                ));
            }
        } else {
            if is_op_char_exec(c) {
                push_char(&mut op, c);
            }
            if is_ver_char_exec(c) {
                push_char(&mut ver, c);
            }
            proof {
                let segs = split_commas(pre);
                assert(split_commas(post) == segs.update(segs.len() - 1, segs.last().push(c)));
                assert(split_commas(post).last() == segs.last().push(c));
                assert(split_commas(post).drop_last() =~= segs.drop_last());
                assert(op_filter(segs.last().push(c)) == if is_op_char(c) {
                    op_filter(segs.last()).push(c)
                } else {
                    op_filter(segs.last())
                }) by {
                    assert(segs.last().push(c).drop_last() =~= segs.last());
                    assert(segs.last().push(c).last() == c);
                }
                assert(ver_filter(segs.last().push(c)) == if is_ver_char(c) {
                    ver_filter(segs.last()).push(c)
                } else {
                    ver_filter(segs.last())
                }) by {
                    assert(segs.last().push(c).drop_last() =~= segs.last());
                    assert(segs.last().push(c).last() == c);
                }
            }
        }
        i = i + 1;
    }
    proof {
        assert(spectxts@.take(n as int) =~= spectxts@);
    }
    let ghost prev = result@;
    result.push(Clause { op, ver });
    proof {
        lemma_split_commas_nonempty(spectxts@);
        let segs = split_commas(spectxts@);
        assert(result@ == prev.push(Clause { op, ver }));
        assert(clause_views(result@).len() == segs.len());
        assert(clause_views(result@).last() =~~= clause_of(segs.last()));
        assert forall|j: int| 0 <= j < segs.len() - 1 implies clause_views(result@)[j]
            =~~= clause_of(segs[j]) by {
            assert(clause_views(result@)[j] == clause_views(prev)[j]);
            assert(clause_views(prev)[j] == segs.drop_last().map_values(
                |seg: Seq<char>| clause_of(seg),
            )[j]);
            assert(segs.drop_last()[j] == segs[j]);
        }
        assert(clause_views(result@) =~~= segs.map_values(|seg: Seq<char>| clause_of(seg)));
    }
    Ok(result)
}

} // verus!
