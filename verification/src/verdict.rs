//! Classification of a completed round: does the candidate agree with the
//! references, and do the references that disagree with it agree with each
//! other?

use vstd::prelude::*;
use crate::outcome::Success;

verus! {

/// The conclusion drawn from the outputs of one completed round.
#[derive(Debug, PartialEq, Eq)]
pub enum Mismatch<'a> {
    /// Every reference produced exactly the candidate's output.
    AllMatch,
    /// The references that differ from the candidate differ among themselves;
    /// all reference outputs are kept.
    RefMismatch(Vec<Success<'a>>),
    /// The references that differ from the candidate share one answer: the
    /// candidate's output and those references.
    ProgMismatch(Success<'a>, Vec<Success<'a>>),
}

/// A run as plain text: the program's path and its output.
pub type Answer = (Seq<char>, Seq<char>);

/// The mathematical value of a [`Mismatch`].
pub enum Verdict {
    AllMatch,
    RefMismatch(Seq<Answer>),
    ProgMismatch(Answer, Seq<Answer>),
}

/// The text of one run.
pub open spec fn answer(run: Success) -> Answer {
    (run.0@, run.1@)
}

/// The texts of a list of runs, in order.
pub open spec fn answers(runs: Seq<Success>) -> Seq<Answer> {
    Seq::new(runs.len(), |i: int| answer(runs[i]))
}

impl<'a> View for Mismatch<'a> {
    type V = Verdict;

    open spec fn view(&self) -> Verdict {
        match *self {
            Mismatch::AllMatch => Verdict::AllMatch,
            Mismatch::RefMismatch(refs) => Verdict::RefMismatch(answers(refs@)),
            Mismatch::ProgMismatch(prog, refs) => Verdict::ProgMismatch(
                answer(prog),
                answers(refs@),
            ),
        }
    }
}

/// Every reference output equals the candidate's output.
pub open spec fn all_agree(output: Seq<char>, refs: Seq<Answer>) -> bool {
    forall|i: int| 0 <= i < refs.len() ==> (#[trigger] refs[i]).1 == output
}

/// Whether an answer's output differs from the given output.
pub open spec fn differs_from(output: Seq<char>) -> spec_fn(Answer) -> bool {
    |r: Answer| r.1 != output
}

/// The references whose output differs from the candidate's, in order.
pub open spec fn dissenters(output: Seq<char>, refs: Seq<Answer>) -> Seq<Answer> {
    refs.filter(differs_from(output))
}

/// Any two references that differ from the candidate give the same output.
pub open spec fn dissent_is_uniform(output: Seq<char>, refs: Seq<Answer>) -> bool {
    forall|i: int, j: int|
        0 <= i < refs.len() && 0 <= j < refs.len() && (#[trigger] refs[i]).1 != output && (
        #[trigger] refs[j]).1 != output ==> refs[i].1 == refs[j].1
}

/// The verdict on a candidate's answer against the references' answers.
pub open spec fn classify(prog: Answer, refs: Seq<Answer>) -> Verdict {
    if all_agree(prog.1, refs) {
        Verdict::AllMatch
    } else if dissent_is_uniform(prog.1, refs) {
        Verdict::ProgMismatch(prog, dissenters(prog.1, refs))
    } else {
        Verdict::RefMismatch(refs)
    }
}

/// Classifies a completed round.
///
/// Equality of outputs is exact equality of text. With no references at all
/// the verdict is `AllMatch`.
pub fn test_mismatch<'a>(prog: Success<'a>, refs: Vec<Success<'a>>) -> (verdict: Mismatch<'a>)
    ensures
        verdict@ == classify(answer(prog), answers(refs@)),
{
    let ghost output = prog.1@;
    let ghost all = answers(refs@);
    let mut first: Option<usize> = None;
    let mut uniform = true;
    let mut i: usize = 0;
    while i < refs.len()
        invariant
            i <= refs.len(),
            output == prog.1@,
            all == answers(refs@),
            first is None <==> forall|k: int| 0 <= k < i ==> (#[trigger] all[k]).1 == output,
            first is Some ==> first.unwrap() < i && all[first.unwrap() as int].1 != output,
            uniform <==> forall|k: int, l: int|
                0 <= k < i && 0 <= l < i && (#[trigger] all[k]).1 != output && (
                #[trigger] all[l]).1 != output ==> all[k].1 == all[l].1,
        decreases refs.len() - i,
    {
        assert(all[i as int] == answer(refs@[i as int]));
        if !(refs[i].1 == prog.1) {
            match first {
                None => {
                    first = Some(i);
                },
                Some(f) => {
                    assert(all[f as int] == answer(refs@[f as int]));
                    if !(refs[f].1 == refs[i].1) {
                        uniform = false;
                    }
                },
            }
        }
        i += 1;
    }
    if first.is_none() {
        Mismatch::AllMatch
    } else if !uniform {
        Mismatch::RefMismatch(refs)
    } else {
        let mut differing: Vec<Success<'a>> = Vec::new();
        for r in it: refs.into_iter()
            invariant
                output == prog.1@,
                all == answers(it.seq()),
                answers(differing@) == dissenters(output, all.take(it.index() as int)),
        {
            proof {
                let k = it.index() as int;
                assert(r == it.seq()[k]);
                assert(all[k] == answer(r));
                assert(all.take(k + 1) =~= all.take(k).push(answer(r)));
                all.take(k).lemma_filter_push(answer(r), differs_from(output));
            }
            if !(r.1 == prog.1) {
                proof {
                    assert(answers(differing@.push(r)) =~= answers(differing@).push(answer(r)));
                }
                differing.push(r);
            }
        }
        proof {
            assert(all.take(all.len() as int) =~= all);
        }
        Mismatch::ProgMismatch(prog, differing)
    }
}

/// Filtering a sequence and then forgetting its order gives the filtered
/// multiset of the sequence.
proof fn lemma_filter_to_multiset(s: Seq<Answer>, pred: spec_fn(Answer) -> bool)
    ensures
        s.filter(pred).to_multiset() =~= s.to_multiset().filter(pred),
    decreases s.len(),
{
    broadcast use vstd::multiset::group_multiset_axioms;

    if s.len() == 0 {
        reveal(Seq::filter);
        s.to_multiset_ensures();
        assert(s.to_multiset().len() == 0);
        assert(s.filter(pred) =~= s);
    } else {
        let front = s.drop_last();
        let last = s.last();
        assert(s =~= front.push(last));
        lemma_filter_to_multiset(front, pred);
        front.lemma_filter_push(last, pred);
        front.to_multiset_ensures();
        front.filter(pred).to_multiset_ensures();
    }
}

/// Whether the references all agree with the candidate depends only on which
/// answers occur among them.
proof fn lemma_all_agree_by_content(output: Seq<char>, r1: Seq<Answer>, r2: Seq<Answer>)
    requires
        r1.to_multiset() == r2.to_multiset(),
        all_agree(output, r1),
    ensures
        all_agree(output, r2),
{
    r1.to_multiset_ensures();
    r2.to_multiset_ensures();
    assert forall|i: int| 0 <= i < r2.len() implies (#[trigger] r2[i]).1 == output by {
        assert(r2.contains(r2[i]));
        assert(r1.to_multiset().count(r2[i]) > 0);
        assert(r1.contains(r2[i]));
    }
}

/// Whether the dissenting references share one answer depends only on which
/// answers occur among the references.
proof fn lemma_uniform_by_content(output: Seq<char>, r1: Seq<Answer>, r2: Seq<Answer>)
    requires
        r1.to_multiset() == r2.to_multiset(),
        dissent_is_uniform(output, r1),
    ensures
        dissent_is_uniform(output, r2),
{
    r1.to_multiset_ensures();
    r2.to_multiset_ensures();
    assert forall|i: int, j: int|
        0 <= i < r2.len() && 0 <= j < r2.len() && (#[trigger] r2[i]).1 != output && (
        #[trigger] r2[j]).1 != output implies r2[i].1 == r2[j].1 by {
        assert(r2.contains(r2[i]));
        assert(r2.contains(r2[j]));
        assert(r1.to_multiset().count(r2[i]) > 0);
        assert(r1.to_multiset().count(r2[j]) > 0);
        assert(r1.contains(r2[i]));
        assert(r1.contains(r2[j]));
        let k = choose|k: int| 0 <= k < r1.len() && r1[k] == r2[i];
        let l = choose|l: int| 0 <= l < r1.len() && r1[l] == r2[j];
        assert(r1[k].1 == r1[l].1);
    }
}

/// Two verdicts that say the same up to the order in which the references
/// are listed.
pub open spec fn same_up_to_order(v1: Verdict, v2: Verdict) -> bool {
    match (v1, v2) {
        (Verdict::AllMatch, Verdict::AllMatch) => true,
        (Verdict::RefMismatch(a), Verdict::RefMismatch(b)) => a.to_multiset() == b.to_multiset(),
        (Verdict::ProgMismatch(p, a), Verdict::ProgMismatch(q, b)) => p == q && a.to_multiset()
            == b.to_multiset(),
        _ => false,
    }
}

/// The verdict does not depend on the order of the references: two lists
/// that hold the same answers, each as often as the other, get the same kind
/// of verdict, about the same candidate and the same answers.
pub proof fn lemma_classify_order_independent(prog: Answer, r1: Seq<Answer>, r2: Seq<Answer>)
    requires
        r1.to_multiset() == r2.to_multiset(),
    ensures
        same_up_to_order(classify(prog, r1), classify(prog, r2)),
{
    if all_agree(prog.1, r1) {
        lemma_all_agree_by_content(prog.1, r1, r2);
    }
    if all_agree(prog.1, r2) {
        lemma_all_agree_by_content(prog.1, r2, r1);
    }
    if dissent_is_uniform(prog.1, r1) {
        lemma_uniform_by_content(prog.1, r1, r2);
    }
    if dissent_is_uniform(prog.1, r2) {
        lemma_uniform_by_content(prog.1, r2, r1);
    }
    lemma_filter_to_multiset(r1, differs_from(prog.1));
    lemma_filter_to_multiset(r2, differs_from(prog.1));
}

/// When every reference gives the candidate's output the verdict is
/// `AllMatch`, however many references there are; and `AllMatch` is given in
/// no other case.
pub proof fn lemma_all_match_iff_all_agree(prog: Answer, refs: Seq<Answer>)
    ensures
        classify(prog, refs) == Verdict::AllMatch <==> all_agree(prog.1, refs),
{
}

/// When the references all give one output and the candidate gives another,
/// the candidate is blamed, and every reference is listed against it.
pub proof fn lemma_unanimous_references_blame_candidate(
    prog: Answer,
    refs: Seq<Answer>,
    output: Seq<char>,
)
    requires
        refs.len() > 0,
        forall|i: int| 0 <= i < refs.len() ==> (#[trigger] refs[i]).1 == output,
        prog.1 != output,
    ensures
        classify(prog, refs) == Verdict::ProgMismatch(prog, refs),
{
    assert(refs[0].1 != prog.1);
    assert forall|i: int| 0 <= i < refs.len() implies differs_from(prog.1)(#[trigger] refs[i]) by {
        assert(refs[i].1 == output);
    }
    lemma_keeps_all(refs, differs_from(prog.1));
}

/// A filter that every element passes changes nothing.
proof fn lemma_keeps_all(s: Seq<Answer>, pred: spec_fn(Answer) -> bool)
    requires
        forall|i: int| 0 <= i < s.len() ==> pred(#[trigger] s[i]),
    ensures
        s.filter(pred) == s,
    decreases s.len(),
{
    reveal(Seq::filter);
    if s.len() > 0 {
        lemma_keeps_all(s.drop_last(), pred);
        assert(s.drop_last().push(s.last()) =~= s);
    }
}

/// When three or more references give pairwise different outputs, they are
/// reported as inconsistent whatever the candidate gives, even where it
/// sides with one of them.
pub proof fn lemma_distinct_references_are_inconsistent(prog: Answer, refs: Seq<Answer>)
    requires
        refs.len() >= 3,
        forall|i: int, j: int|
            0 <= i < j < refs.len() ==> (#[trigger] refs[i]).1 != (#[trigger] refs[j]).1,
    ensures
        classify(prog, refs) == Verdict::RefMismatch(refs),
{
    assert(refs[0].1 != refs[1].1);
    assert(refs[0].1 != refs[2].1);
    assert(refs[1].1 != refs[2].1);
    if refs[0].1 == prog.1 {
        assert(refs[1].1 != prog.1 && refs[2].1 != prog.1);
    } else if refs[1].1 == prog.1 {
        assert(refs[0].1 != prog.1 && refs[2].1 != prog.1);
    } else {
        assert(refs[0].1 != prog.1 && refs[1].1 != prog.1);
    }
}

} // verus!
