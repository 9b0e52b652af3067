//! A live qwiz: a host runs a qwiz question by question in front of
//! participants; the state moves from starting, through one running state
//! per question, to finishing with each participant's score.

pub mod routes;

use crate::question::{answer_list, answers_of, copy_text, valid_correct, Question};
use rand::seq::SliceRandom;
use std::collections::{HashMap, VecDeque};
use vstd::prelude::*;

verus! {

broadcast use {vstd::std_specs::hash::group_hash_axioms, vstd::seq_lib::group_to_multiset_ensures};

/// How a live qwiz presents its questions and answers.
#[derive(Debug)]
pub struct LiveQwizOptions {
    pub shuffle_questions: bool,
    pub shuffle_answers: bool,
}

/// A participant of a live qwiz.
#[derive(Debug)]
pub struct LiveQwizParticipant {
    pub id: i32,
    pub display_name: String,
    pub profile_picture_uri: String,
}

/// The state before the first question.
#[derive(Debug)]
pub struct StartingLiveQwiz();

/// The state while a question is shown: its number (from 0), its answers in
/// the order shown, the position of the correct one among them, and for
/// each participant whether each question so far was answered correctly.
#[derive(Debug)]
pub struct RunningLiveQwiz {
    pub question_number: usize,
    pub current_answers: Vec<String>,
    pub correct_answer: u8,
    pub accepted_answers: HashMap<i32, Vec<bool>>,
}

/// The state after the last question: each participant's score.
#[derive(Debug)]
pub struct FinishingLiveQwiz {
    pub scores: HashMap<i32, usize>,
}

/// The three phases of a live qwiz.
#[derive(Debug)]
pub enum LiveQwizState {
    Starting(StartingLiveQwiz),
    Running(RunningLiveQwiz),
    Finishing(FinishingLiveQwiz),
}

/// A live qwiz: the questions still to come, in order, and its participants.
#[derive(Debug)]
pub struct LiveQwiz {
    pub qwiz_id: i32,
    pub options: LiveQwizOptions,
    pub questions: VecDeque<Question>,
    pub participants: Vec<LiveQwizParticipant>,
    pub state: LiveQwizState,
}

/// The texts of a sequence of strings.
pub open spec fn texts(v: Seq<String>) -> Seq<Seq<char>> {
    v.map_values(|s: String| s@)
}

/// The answer positions `0, 1, .., n - 1` in their own order.
pub open spec fn identity_order(n: nat) -> Seq<u8> {
    Seq::new(n, |i: int| i as u8)
}

/// `order` lists the answer positions `0 .. n` each once, in some order.
pub open spec fn is_order_of(order: Seq<u8>, n: nat) -> bool {
    order.to_multiset() == identity_order(n).to_multiset()
}

/// `answers` are the answers of `q` taken in `order`, and `correct` is the
/// first place at which `order` holds the correct answer of `q`.
pub open spec fn arranged(q: Question, order: Seq<u8>, answers: Seq<Seq<char>>, correct: int) -> bool {
    &&& answers.len() == order.len()
    &&& forall|j: int| 0 <= j < order.len() ==> #[trigger] answers[j] == answer_list(q)[order[j] as int]
    &&& 0 <= correct < order.len()
    &&& order[correct] == q.correct - 1
    &&& forall|j: int| 0 <= j < correct ==> #[trigger] order[j] != q.correct - 1
}

/// `r` shows the answers of `q` in an order that permutes them, and keeps
/// their own order when answers are not shuffled.
pub open spec fn presents(r: RunningLiveQwiz, q: Question, shuffle: bool) -> bool {
    exists|order: Seq<u8>|
        #![trigger is_order_of(order, answer_list(q).len())]
        is_order_of(order, answer_list(q).len())
        && (!shuffle ==> order == identity_order(answer_list(q).len()))
        && arranged(q, order, texts(r.current_answers@), r.correct_answer as int)
}

/// Every participant in `ids`, with no answers recorded.
pub open spec fn empty_record(ids: Seq<i32>) -> Map<i32, Seq<bool>> {
    Map::new(|k: i32| ids.contains(k), |k: i32| Seq::<bool>::empty())
}

/// `r` is the first question `q` shown to the participants `ids`.
pub open spec fn is_start(r: RunningLiveQwiz, q: Question, shuffle: bool, ids: Seq<i32>) -> bool {
    &&& r.question_number == 0
    &&& presents(r, q, shuffle)
    &&& answer_record(r.accepted_answers@) == empty_record(ids)
}

/// `next` shows question `q` after `prev`: the number goes up by one and
/// each participant's record is padded with `false` to that number.
pub open spec fn is_advance(prev: RunningLiveQwiz, next: RunningLiveQwiz, q: Question, shuffle: bool) -> bool {
    &&& next.question_number == prev.question_number + 1
    &&& presents(next, q, shuffle)
    &&& answer_record(next.accepted_answers@)
        == answer_record(prev.accepted_answers@).map_values(|s: Seq<bool>| padded(s, next.question_number as nat))
}

/// How many entries of `s` are `true`.
pub open spec fn count_true(s: Seq<bool>) -> nat
    decreases s.len(),
{
    if s.len() == 0 {
        0
    } else {
        count_true(s.drop_last()) + if s.last() { 1nat } else { 0nat }
    }
}

/// The scores, as plain numbers.
pub open spec fn score_record(m: Map<i32, usize>) -> Map<i32, nat> {
    m.map_values(|c: usize| c as nat)
}

/// Each participant's score at the end of `r`: the questions answered correctly.
pub open spec fn final_scores(r: RunningLiveQwiz) -> Map<i32, nat> {
    answer_record(r.accepted_answers@).map_values(|s: Seq<bool>| count_true(s))
}

/// A score of zero for every participant in `ids`.
pub open spec fn zero_scores(ids: Seq<i32>) -> Map<i32, nat> {
    Map::new(|k: i32| ids.contains(k), |k: i32| 0nat)
}

/// One step of a live qwiz from `old` to `new`, given the next question
/// (if any), whether answers are shuffled and the participants.
pub open spec fn state_step(
    old: LiveQwizState,
    new: LiveQwizState,
    question: Option<Question>,
    shuffle: bool,
    ids: Seq<i32>,
) -> bool {
    match old {
        LiveQwizState::Starting(_) => match question {
            Some(q) => new matches LiveQwizState::Running(r) && is_start(r, q, shuffle, ids),
            None => new matches LiveQwizState::Finishing(f) && score_record(f.scores@) == zero_scores(ids),
        },
        LiveQwizState::Running(prev) => match question {
            Some(q) => new matches LiveQwizState::Running(r) && is_advance(prev, r, q, shuffle),
            None => new matches LiveQwizState::Finishing(f) && score_record(f.scores@) == final_scores(prev),
        },
        LiveQwizState::Finishing(_) => new == old,
    }
}

/// `answers` extended with `false` up to length `n` (unchanged if longer).
pub open spec fn padded(answers: Seq<bool>, n: nat) -> Seq<bool> {
    if answers.len() >= n {
        answers
    } else {
        answers + Seq::new((n - answers.len()) as nat, |i: int| false)
    }
}

/// The accepted-answer record of each participant, as plain sequences.
pub open spec fn answer_record(m: Map<i32, Vec<bool>>) -> Map<i32, Seq<bool>> {
    m.map_values(|v: Vec<bool>| v@)
}

fn padded_vec(answers: &Vec<bool>, n: usize) -> (r: Vec<bool>)
    ensures
        r@ == padded(answers@, n as nat),
{
    let mut r = answers.clone();
    assert(r@ =~= answers@ + Seq::new(0, |i: int| false));
    while r.len() < n
        invariant
            r@.len() >= answers@.len(),
            r@ =~= answers@ + Seq::new((r@.len() - answers@.len()) as nat, |i: int| false),
            answers@.len() < n ==> r@.len() <= n,
            answers@.len() >= n ==> r@.len() == answers@.len(),
        decreases n - r@.len(),
    {
        r.push(false);
    }
    assert(r@ =~= padded(answers@, n as nat));
    r
}

/// `k` occurs among the first `n` elements of `s`.
pub open spec fn occurs_before(s: Seq<i32>, n: int, k: i32) -> bool {
    exists|j: int| 0 <= j < n && s[j] == k
}

fn pad_all(m: &HashMap<i32, Vec<bool>>, n: usize) -> (r: HashMap<i32, Vec<bool>>)
    ensures
        answer_record(r@) == answer_record(m@).map_values(|s: Seq<bool>| padded(s, n as nat)),
{
    let mut r: HashMap<i32, Vec<bool>> = HashMap::new();
    for id in it: m.keys()
        invariant
            it.seq().unref().to_set() == m@.dom(),
            forall|k: i32| #[trigger] m@.contains_key(k) ==> occurs_before(it.seq().unref(), it.seq().len() as int, k),
            forall|k: i32| #[trigger] r@.contains_key(k) <==> occurs_before(it.seq().unref(), it.index() as int, k),
            forall|k: i32| #[trigger] r@.contains_key(k) ==> m@.contains_key(k) && r@[k]@ == padded(m@[k]@, n as nat),
        ensures
            forall|k: i32| #[trigger] m@.contains_key(k) ==> r@.contains_key(k),
    {
        let ghost idx = it.index() as int;
        let ghost s = it.seq().unref();
        assert(s[idx] == *id);
        let answers = m.get(id).unwrap();
        r.insert(*id, padded_vec(answers, n));
        assert forall|k: i32| #[trigger] r@.contains_key(k) <==> occurs_before(s, idx + 1, k) by {
            if k == *id {
                assert(s[idx] == k);
            } else if occurs_before(s, idx + 1, k) {
                let j = choose|j: int| 0 <= j < idx + 1 && s[j] == k;
                assert(0 <= j < idx && s[j] == k);
                assert(occurs_before(s, idx, k));
            }
        }
    }
    assert(answer_record(r@) =~= answer_record(m@).map_values(|s: Seq<bool>| padded(s, n as nat)));
    r
}

/// `SliceRandom::shuffle` of the `rand` crate with `thread_rng()`.
/// Claimed: the result holds the same elements (a permutation, as the
/// crate's documentation says); which permutation comes is left open.
#[verifier::external_body]
fn shuffle_order(order: &mut Vec<u8>)
    ensures
        final(order)@.to_multiset() == old(order)@.to_multiset(),
{
    order.shuffle(&mut rand::thread_rng());
}

/// An answer order of `n` positions holds exactly the positions below `n`.
proof fn lemma_order_bounds(order: Seq<u8>, n: nat)
    requires
        is_order_of(order, n),
        n <= 256,
    ensures
        order.len() == n,
        forall|j: int| 0 <= j < order.len() ==> #[trigger] order[j] < n,
        forall|x: u8| x < n ==> #[trigger] order.contains(x),
{
    order.to_multiset_ensures();
    identity_order(n).to_multiset_ensures();
    assert forall|j: int| 0 <= j < order.len() implies #[trigger] order[j] < n by {
        let x = order[j];
        assert(order.contains(x));
        assert(order.to_multiset().count(x) > 0);
        assert(identity_order(n).to_multiset().count(x) > 0);
        assert(identity_order(n).contains(x));
        let i = choose|i: int| 0 <= i < n && identity_order(n)[i] == x;
        assert(identity_order(n)[i] == i as u8);
    }
    assert forall|x: u8| x < n implies #[trigger] order.contains(x) by {
        assert(identity_order(n)[x as int] == x);
        assert(identity_order(n).contains(x));
        assert(identity_order(n).to_multiset().count(x) > 0);
        assert(order.to_multiset().count(x) > 0);
    }
}

fn identity_vec(n: u8) -> (r: Vec<u8>)
    ensures
        r@ == identity_order(n as nat),
{
    let mut r: Vec<u8> = Vec::new();
    let mut i: u8 = 0;
    while i < n
        invariant
            i <= n,
            r@ =~= identity_order(i as nat),
        decreases n - i,
    {
        r.push(i);
        i = i + 1;
        assert(r@ =~= identity_order(i as nat));
    }
    r
}

/// The order in which the `n` answers of a question are shown.
fn answer_order(n: u8, shuffle: bool) -> (r: Vec<u8>)
    ensures
        is_order_of(r@, n as nat),
        !shuffle ==> r@ == identity_order(n as nat),
{
    let mut order = identity_vec(n);
    if shuffle {
        shuffle_order(&mut order);
    }
    order
}

/// Every participant in `ids` with an empty record.
fn empty_answers(ids: &Vec<i32>) -> (r: HashMap<i32, Vec<bool>>)
    ensures
        answer_record(r@) == empty_record(ids@),
{
    let mut r: HashMap<i32, Vec<bool>> = HashMap::new();
    let mut i: usize = 0;
    while i < ids.len()
        invariant
            i <= ids@.len(),
            forall|k: i32| #[trigger] r@.contains_key(k) <==> occurs_before(ids@, i as int, k),
            forall|k: i32| #[trigger] r@.contains_key(k) ==> r@[k]@ == Seq::<bool>::empty(),
        decreases ids@.len() - i,
    {
        let id = ids[i];
        r.insert(id, Vec::new());
        assert forall|k: i32| #[trigger] r@.contains_key(k) <==> occurs_before(ids@, i + 1, k) by {
            if k == id {
                assert(ids@[i as int] == k);
            } else if occurs_before(ids@, i + 1, k) {
                let j = choose|j: int| 0 <= j < i + 1 && ids@[j] == k;
                assert(occurs_before(ids@, i as int, k));
            }
        }
        i = i + 1;
    }
    assert(answer_record(r@) =~= empty_record(ids@));
    r
}

impl RunningLiveQwiz {
    /// The first question `question` shown with its answers in `order`, to
    /// the participants `participant_ids`.
    pub fn from_order(question: &Question, order: Vec<u8>, participant_ids: &Vec<i32>) -> (r: Self)
        requires
            valid_correct(*question),
            is_order_of(order@, answer_list(*question).len()),
        ensures
            r.question_number == 0,
            arranged(*question, order@, texts(r.current_answers@), r.correct_answer as int),
            answer_record(r.accepted_answers@) == empty_record(participant_ids@),
    {
        let answers = answers_of(question);
        let ghost list = answer_list(*question);
        proof {
            lemma_order_bounds(order@, list.len());
            assert(answers@.len() == list.len());
        }
        let target: u8 = (question.correct - 1) as u8;
        assert(target == question.correct - 1);
        assert(order@.contains(target));
        let mut position: usize = 0;
        while order[position] != target
            invariant
                order@.len() == list.len(),
                target < list.len(),
                list.len() <= 4,
                order@.contains(target),
                position < order@.len(),
                forall|j: int| 0 <= j < position ==> #[trigger] order@[j] != target,
            decreases order@.len() - position,
        {
            position = position + 1;
            proof {
                if position == order@.len() {
                    let j = choose|j: int| 0 <= j < order@.len() && order@[j] == target;
                    assert(order@[j] != target);
                }
            }
        }
        let mut current: Vec<String> = Vec::new();
        let mut j: usize = 0;
        while j < order.len()
            invariant
                j <= order@.len(),
                order@.len() == list.len(),
                answers@.map_values(|s: String| s@) == list,
                forall|i: int| 0 <= i < order@.len() ==> #[trigger] order@[i] < list.len(),
                current@.len() == j,
                forall|i: int| 0 <= i < j ==> #[trigger] current@[i]@ == list[order@[i] as int],
            decreases order@.len() - j,
        {
            let k = order[j] as usize;
            assert(answers@.map_values(|s: String| s@)[k as int] == answers@[k as int]@);
            current.push(copy_text(&answers[k]));
            j = j + 1;
        }
        let accepted_answers = empty_answers(participant_ids);
        let r = RunningLiveQwiz {
            question_number: 0,
            current_answers: current,
            correct_answer: position as u8,
            accepted_answers,
        };
        assert forall|i: int| 0 <= i < order@.len() implies #[trigger] texts(r.current_answers@)[i] == list[order@[i] as int] by {
            assert(current@[i]@ == list[order@[i] as int]);
        }
        r
    }
}

/// The number of answers of `question`.
fn answer_count(question: &Question) -> (r: u8)
    ensures
        r as nat == answer_list(*question).len(),
        r <= 4,
{
    let answers = answers_of(question);
    assert(answers@.len() == answer_list(*question).len());
    answers.len() as u8
}

/// The number of `true` entries of a prefix grows by one at most per entry.
proof fn lemma_count_true_bound(s: Seq<bool>)
    ensures
        count_true(s) <= s.len(),
    decreases s.len(),
{
    if s.len() > 0 {
        lemma_count_true_bound(s.drop_last());
    }
}

fn count_trues(v: &Vec<bool>) -> (r: usize)
    ensures
        r as nat == count_true(v@),
{
    let mut c: usize = 0;
    let mut i: usize = 0;
    while i < v.len()
        invariant
            i <= v@.len(),
            c as nat == count_true(v@.take(i as int)),
        decreases v@.len() - i,
    {
        proof {
            assert(v@.take(i + 1).drop_last() =~= v@.take(i as int));
            lemma_count_true_bound(v@.take(i as int));
        }
        if v[i] {
            c = c + 1;
        }
        i = i + 1;
    }
    assert(v@.take(i as int) =~= v@);
    c
}

impl RunningLiveQwiz {
    /// The first question shown to `participant_ids`, its answers shuffled
    /// when `shuffle_answers` is set.
    pub fn new(question: Question, shuffle_answers: bool, participant_ids: Vec<i32>) -> (r: Self)
        requires
            valid_correct(question),
        ensures
            is_start(r, question, shuffle_answers, participant_ids@),
    {
        let n = answer_count(&question);
        let order = answer_order(n, shuffle_answers);
        let ghost o = order@;
        let r = Self::from_order(&question, order, &participant_ids);
        assert(is_order_of(o, answer_list(question).len()));
        r
    }

    /// The state after this question: the next question shown (its answers
    /// shuffled when `shuffle_answers` is set, each participant's record
    /// padded with `false` up to the new question number), or the final
    /// scores when there is no next question. The participants stay those
    /// of this state; `participant_ids` is not read.
    pub fn next(&self, next_question: Option<Question>, shuffle_answers: bool, participant_ids: Vec<i32>) -> (r: LiveQwizState)
        requires
            next_question is Some ==> self.question_number < usize::MAX,
            next_question matches Some(q) ==> valid_correct(q),
        ensures
            state_step(LiveQwizState::Running(*self), r, next_question, shuffle_answers, participant_ids@),
    {
        match next_question {
            Some(nq) => {
                let question_number = self.question_number + 1;
                let n = answer_count(&nq);
                let order = answer_order(n, shuffle_answers);
                let ghost o = order@;
                let no_one: Vec<i32> = Vec::new();
                let shown = Self::from_order(&nq, order, &no_one);
                let accepted_answers = pad_all(&self.accepted_answers, question_number);
                let r = RunningLiveQwiz {
                    question_number,
                    current_answers: shown.current_answers,
                    correct_answer: shown.correct_answer,
                    accepted_answers,
                };
                assert(is_order_of(o, answer_list(nq).len()));
                LiveQwizState::Running(r)
            },
            None => LiveQwizState::Finishing(FinishingLiveQwiz::from_running(self)),
        }
    }
}

impl FinishingLiveQwiz {
    /// A score of zero for every participant.
    pub fn new(participants: Vec<i32>) -> (r: Self)
        ensures
            score_record(r.scores@) == zero_scores(participants@),
    {
        let mut scores: HashMap<i32, usize> = HashMap::new();
        let mut i: usize = 0;
        while i < participants.len()
            invariant
                i <= participants@.len(),
                forall|k: i32| #[trigger] scores@.contains_key(k) <==> occurs_before(participants@, i as int, k),
                forall|k: i32| #[trigger] scores@.contains_key(k) ==> scores@[k] == 0,
            decreases participants@.len() - i,
        {
            let id = participants[i];
            scores.insert(id, 0);
            assert forall|k: i32| #[trigger] scores@.contains_key(k) <==> occurs_before(participants@, i + 1, k) by {
                if k == id {
                    assert(participants@[i as int] == k);
                } else if occurs_before(participants@, i + 1, k) {
                    let j = choose|j: int| 0 <= j < i + 1 && participants@[j] == k;
                    assert(occurs_before(participants@, i as int, k));
                }
            }
            i = i + 1;
        }
        let r = Self { scores };
        assert(score_record(r.scores@) =~= zero_scores(participants@));
        r
    }

    /// Each participant's score: how many questions they answered correctly.
    pub fn from_running(value: &RunningLiveQwiz) -> (r: Self)
        ensures
            score_record(r.scores@) == final_scores(*value),
    {
        let m = &value.accepted_answers;
        let mut scores: HashMap<i32, usize> = HashMap::new();
        for id in it: m.keys()
            invariant
                it.seq().unref().to_set() == m@.dom(),
                forall|k: i32| #[trigger] m@.contains_key(k) ==> occurs_before(it.seq().unref(), it.seq().len() as int, k),
                forall|k: i32| #[trigger] scores@.contains_key(k) <==> occurs_before(it.seq().unref(), it.index() as int, k),
                forall|k: i32| #[trigger] scores@.contains_key(k) ==> m@.contains_key(k) && scores@[k] as nat == count_true(m@[k]@),
            ensures
                forall|k: i32| #[trigger] m@.contains_key(k) ==> scores@.contains_key(k),
        {
            let ghost idx = it.index() as int;
            let ghost s = it.seq().unref();
            assert(s[idx] == *id);
            let answers = m.get(id).unwrap();
            scores.insert(*id, count_trues(answers));
            assert forall|k: i32| #[trigger] scores@.contains_key(k) <==> occurs_before(s, idx + 1, k) by {
                if k == *id {
                    assert(s[idx] == k);
                } else if occurs_before(s, idx + 1, k) {
                    let j = choose|j: int| 0 <= j < idx + 1 && s[j] == k;
                    assert(occurs_before(s, idx, k));
                }
            }
        }
        let r = Self { scores };
        assert(score_record(r.scores@) =~= final_scores(*value));
        r
    }
}

impl LiveQwizState {
    /// Moves to the next phase: from starting to the first question (or to
    /// zero scores when there is none), from a question to the next one (or
    /// to the final scores), and never out of finishing.
    pub fn next(&mut self, question: Option<Question>, shuffle_answers: bool, participant_ids: Vec<i32>)
        requires
            *old(self) matches LiveQwizState::Running(r) ==> (question is Some ==> r.question_number < usize::MAX),
            question matches Some(q) ==> valid_correct(q),
        ensures
            state_step(*old(self), *final(self), question, shuffle_answers, participant_ids@),
    {
        let ghost q0 = question;
        let ghost ids = participant_ids@;
        let new_state = match &*self {
            LiveQwizState::Starting(_) => Some(
                match question {
                    Some(q) => LiveQwizState::Running(RunningLiveQwiz::new(q, shuffle_answers, participant_ids)),
                    None => LiveQwizState::Finishing(FinishingLiveQwiz::new(participant_ids)),
                },
            ),
            LiveQwizState::Running(s) => Some(s.next(question, shuffle_answers, participant_ids)),
            LiveQwizState::Finishing(_) => None,
        };
        if let Some(ns) = new_state {
            *self = ns;
        }
    }
}

/// The ids of `participants`, in order.
pub open spec fn participant_ids(participants: Seq<LiveQwizParticipant>) -> Seq<i32> {
    participants.map_values(|p: LiveQwizParticipant| p.id)
}

/// The first element of `s`, if any.
pub open spec fn first_of<T>(s: Seq<T>) -> Option<T> {
    if s.len() > 0 {
        Some(s[0])
    } else {
        None
    }
}

fn ids_of(participants: &Vec<LiveQwizParticipant>) -> (r: Vec<i32>)
    ensures
        r@ == participant_ids(participants@),
{
    let mut r: Vec<i32> = Vec::new();
    let mut i: usize = 0;
    while i < participants.len()
        invariant
            i <= participants@.len(),
            r@ =~= participant_ids(participants@.take(i as int)),
        decreases participants@.len() - i,
    {
        r.push(participants[i].id);
        i = i + 1;
        assert(r@ =~= participant_ids(participants@.take(i as int)));
    }
    assert(participants@.take(i as int) =~= participants@);
    r
}

/// One call of `progress` from `old` to `new`: the next question (if any)
/// is taken off the queue and the state moves one step with it, the
/// current participants and the answer-shuffling option; nothing else
/// changes.
pub open spec fn progressed(old: LiveQwiz, new: LiveQwiz) -> bool {
    &&& new.qwiz_id == old.qwiz_id
    &&& new.options == old.options
    &&& new.participants == old.participants
    &&& new.questions@ == if old.questions@.len() > 0 {
        old.questions@.drop_first()
    } else {
        old.questions@
    }
    &&& state_step(
        old.state,
        new.state,
        first_of(old.questions@),
        old.options.shuffle_answers,
        participant_ids(old.participants@),
    )
}

impl LiveQwiz {
    /// A live qwiz that has not started, with `questions` to come in order.
    pub fn new(qwiz_id: i32, options: LiveQwizOptions, questions: Vec<Question>, participants: Vec<LiveQwizParticipant>) -> (r: Self)
        ensures
            r.qwiz_id == qwiz_id,
            r.options == options,
            r.questions@ == questions@,
            r.participants == participants,
            r.state is Starting,
    {
        let queue = crate::to_queue(questions);
        Self {
            qwiz_id,
            options,
            questions: queue,
            participants,
            state: LiveQwizState::Starting(StartingLiveQwiz()),
        }
    }

    /// Takes the next question (if any) and moves the state one step, with
    /// the current participants and the answer-shuffling option.
    pub fn progress(&mut self)
        requires
            old(self).state matches LiveQwizState::Running(r) ==> (old(self).questions@.len() > 0 ==> r.question_number < usize::MAX),
            old(self).questions@.len() > 0 ==> valid_correct(old(self).questions@[0]),
        ensures
            progressed(*old(self), *final(self)),
    {
        let participant_ids = ids_of(&self.participants);
        let next = self.questions.pop_front();
        let new_state = match (&self.state, next) {
            (LiveQwizState::Starting(_), Some(q)) => Some(
                LiveQwizState::Running(RunningLiveQwiz::new(q, self.options.shuffle_answers, participant_ids)),
            ),
            (LiveQwizState::Starting(_), None) => Some(
                LiveQwizState::Finishing(FinishingLiveQwiz::new(participant_ids)),
            ),
            (LiveQwizState::Running(state), q) => Some(
                state.next(q, self.options.shuffle_answers, participant_ids),
            ),
            (LiveQwizState::Finishing(_), _) => None,
        };
        if let Some(ns) = new_state {
            self.state = ns;
        }
        assert(final(self).questions@ =~= if old(self).questions@.len() > 0 {
            old(self).questions@.drop_first()
        } else {
            old(self).questions@
        });
    }
}

/// Whatever order the answers are shown in, the answer at the position
/// marked correct is the question's correct answer.
pub proof fn correct_answer_is_shown(r: RunningLiveQwiz, q: Question, shuffle: bool)
    requires
        presents(r, q, shuffle),
    ensures
        0 <= r.correct_answer < r.current_answers@.len(),
        texts(r.current_answers@)[r.correct_answer as int] == answer_list(q)[q.correct - 1],
{
    let order = choose|order: Seq<u8>|
        #![trigger is_order_of(order, answer_list(q).len())]
        is_order_of(order, answer_list(q).len())
        && (!shuffle ==> order == identity_order(answer_list(q).len()))
        && arranged(q, order, texts(r.current_answers@), r.correct_answer as int);
    assert(texts(r.current_answers@)[r.correct_answer as int] == answer_list(q)[order[r.correct_answer as int] as int]);
}

/// Without shuffling, the answers are shown in the question's own order and
/// the correct position is the correct-answer number less one.
pub proof fn unshuffled_answers_keep_their_order(r: RunningLiveQwiz, q: Question)
    requires
        presents(r, q, false),
        valid_correct(q),
    ensures
        texts(r.current_answers@) == answer_list(q),
        r.correct_answer == q.correct - 1,
{
    let n = answer_list(q).len();
    let order = choose|order: Seq<u8>|
        #![trigger is_order_of(order, answer_list(q).len())]
        is_order_of(order, answer_list(q).len())
        && (!false ==> order == identity_order(answer_list(q).len()))
        && arranged(q, order, texts(r.current_answers@), r.correct_answer as int);
    assert(order == identity_order(n));
    assert forall|j: int| 0 <= j < n implies #[trigger] texts(r.current_answers@)[j] == answer_list(q)[j] by {
        assert(order[j] == j as u8);
    }
    assert(texts(r.current_answers@) =~= answer_list(q));
    let c = q.correct - 1;
    assert(order[c] == c as u8);
    if r.correct_answer > c {
        assert(order[c] != q.correct - 1);
    }
}

/// A finished live qwiz stays finished and keeps its scores.
pub proof fn finishing_is_final(
    old: LiveQwizState,
    new: LiveQwizState,
    question: Option<Question>,
    shuffle: bool,
    ids: Seq<i32>,
)
    requires
        old is Finishing,
        state_step(old, new, question, shuffle, ids),
    ensures
        new == old,
{
}

/// Moving to the next question keeps the same participants, keeps what was
/// recorded for each, and gives each a record covering every question so far.
pub proof fn advance_keeps_records(prev: RunningLiveQwiz, next: RunningLiveQwiz, q: Question, shuffle: bool)
    requires
        is_advance(prev, next, q, shuffle),
    ensures
        answer_record(next.accepted_answers@).dom() == answer_record(prev.accepted_answers@).dom(),
        forall|k: i32| #[trigger] answer_record(next.accepted_answers@).contains_key(k) ==> {
            &&& answer_record(next.accepted_answers@)[k].len() >= next.question_number
            &&& answer_record(next.accepted_answers@)[k].take(answer_record(prev.accepted_answers@)[k].len() as int)
                == answer_record(prev.accepted_answers@)[k]
        },
{
    let before = answer_record(prev.accepted_answers@);
    let after = answer_record(next.accepted_answers@);
    assert(after.dom() =~= before.dom());
    assert forall|k: i32| #[trigger] after.contains_key(k) implies {
        &&& after[k].len() >= next.question_number
        &&& after[k].take(before[k].len() as int) == before[k]
    } by {
        assert(after[k] == padded(before[k], next.question_number as nat));
        assert(after[k].take(before[k].len() as int) =~= before[k]);
    }
}

/// A final score never exceeds the number of questions recorded for that
/// participant.
pub proof fn score_at_most_questions(r: RunningLiveQwiz, k: i32)
    requires
        final_scores(r).contains_key(k),
    ensures
        final_scores(r)[k] <= answer_record(r.accepted_answers@)[k].len(),
{
    lemma_count_true_bound(answer_record(r.accepted_answers@)[k]);
}

/// Two sequences with the same elements keep the same elements under any map.
proof fn lemma_map_same_elements<A, B>(a: Seq<A>, b: Seq<A>, f: spec_fn(A) -> B)
    requires
        a.to_multiset() == b.to_multiset(),
    ensures
        a.map_values(f).to_multiset() == b.map_values(f).to_multiset(),
    decreases a.len(),
{
    a.to_multiset_ensures();
    b.to_multiset_ensures();
    if a.len() == 0 {
        assert(b.len() == 0);
        assert(a.map_values(f) =~= b.map_values(f));
    } else {
        let x = a.last();
        let rest = a.drop_last();
        assert(a =~= rest.push(x));
        rest.to_multiset_ensures();
        assert(a.to_multiset().count(x) > 0);
        assert(b.contains(x));
        let i = choose|i: int| 0 <= i < b.len() && b[i] == x;
        let b_rest = b.remove(i);
        assert(rest.to_multiset() =~= a.to_multiset().remove(x));
        assert(b_rest.to_multiset() =~= b.to_multiset().remove(x));
        lemma_map_same_elements(rest, b_rest, f);
        let fa = a.map_values(f);
        let fb = b.map_values(f);
        assert(fa =~= rest.map_values(f).push(f(x)));
        rest.map_values(f).to_multiset_ensures();
        fb.to_multiset_ensures();
        assert(fb.remove(i) =~= b_rest.map_values(f));
        assert(fb[i] == f(x));
        assert(fb.to_multiset().count(f(x)) > 0);
        assert(fb.remove(i).to_multiset() =~= fb.to_multiset().remove(f(x)));
        assert(fb.to_multiset() =~= fb.to_multiset().remove(f(x)).insert(f(x)));
    }
}

/// The answers shown are exactly the question's answers, each as often as
/// it occurs in the question, whatever the order.
pub proof fn shown_answers_are_the_questions(r: RunningLiveQwiz, q: Question, shuffle: bool)
    requires
        presents(r, q, shuffle),
    ensures
        texts(r.current_answers@).to_multiset() == answer_list(q).to_multiset(),
{
    let list = answer_list(q);
    let n = list.len();
    let order = choose|order: Seq<u8>|
        #![trigger is_order_of(order, answer_list(q).len())]
        is_order_of(order, answer_list(q).len())
        && (!shuffle ==> order == identity_order(answer_list(q).len()))
        && arranged(q, order, texts(r.current_answers@), r.correct_answer as int);
    let f = |i: u8| list[i as int];
    assert(n <= 4);
    lemma_map_same_elements(order, identity_order(n), f);
    assert(texts(r.current_answers@) =~= order.map_values(f));
    assert(list =~= identity_order(n).map_values(f));
}

/// Where a live qwiz with `n` questions and participants `ids` stands after
/// `k` calls of `progress`: starting at first, running question `k - 1`
/// (with a record for each participant) for `1 <= k <= n`, and finishing
/// with a score for each participant from call `n + 1` on.
pub open spec fn phase_after(lq: LiveQwiz, n: nat, k: nat, ids: Set<i32>) -> bool {
    if k == 0 {
        lq.state is Starting
    } else if k <= n {
        lq.state matches LiveQwizState::Running(r) && r.question_number == k - 1 && answer_record(r.accepted_answers@).dom() == ids
    } else {
        lq.state matches LiveQwizState::Finishing(f) && f.scores@.dom() == ids
    }
}

/// Consecutive values of a live qwiz, each one call of `progress` after the last.
pub open spec fn progress_trace(trace: Seq<LiveQwiz>) -> bool {
    &&& trace.len() >= 1
    &&& trace[0].state is Starting
    &&& forall|i: int| 0 < i < trace.len() ==> progressed(trace[i - 1], #[trigger] trace[i])
}

proof fn lemma_progress_trace(trace: Seq<LiveQwiz>, k: int)
    requires
        progress_trace(trace),
        0 <= k < trace.len(),
    ensures
        trace[k].participants == trace[0].participants,
        k <= trace[0].questions@.len() ==> trace[k].questions@.len() == trace[0].questions@.len() - k,
        k > trace[0].questions@.len() ==> trace[k].questions@.len() == 0,
        phase_after(trace[k], trace[0].questions@.len(), k as nat, participant_ids(trace[0].participants@).to_set()),
    decreases k,
{
    if k > 0 {
        lemma_progress_trace(trace, k - 1);
        let n = trace[0].questions@.len();
        let ids = participant_ids(trace[0].participants@);
        let prev = trace[k - 1];
        let cur = trace[k];
        assert(progressed(prev, cur));
        match prev.state {
            LiveQwizState::Starting(_) => {
                if n > 0 {
                    let r = cur.state->Running_0;
                    assert(answer_record(r.accepted_answers@).dom() =~= ids.to_set());
                } else {
                    let f = cur.state->Finishing_0;
                    assert(score_record(f.scores@).dom() =~= f.scores@.dom());
                    assert(f.scores@.dom() =~= ids.to_set());
                }
            },
            LiveQwizState::Running(p) => {
                if k - 1 < n {
                    let r = cur.state->Running_0;
                    assert(answer_record(r.accepted_answers@).dom() =~= answer_record(p.accepted_answers@).dom());
                } else {
                    let f = cur.state->Finishing_0;
                    assert(score_record(f.scores@).dom() =~= f.scores@.dom());
                    assert(f.scores@.dom() =~= answer_record(p.accepted_answers@).dom());
                }
            },
            LiveQwizState::Finishing(_) => {},
        }
    }
}

/// A live qwiz made with `n` questions and moved on by `progress` again and
/// again runs question `k - 1` after the `k`-th call for `1 <= k <= n`, and
/// from the `n + 1`-th call on is finished, with a score for exactly its
/// participants.
pub proof fn progress_runs_through_questions(trace: Seq<LiveQwiz>)
    requires
        progress_trace(trace),
    ensures
        forall|k: int| 0 <= k < trace.len() ==> phase_after(
            #[trigger] trace[k],
            trace[0].questions@.len(),
            k as nat,
            participant_ids(trace[0].participants@).to_set(),
        ),
{
    assert forall|k: int| 0 <= k < trace.len() implies phase_after(
        #[trigger] trace[k],
        trace[0].questions@.len(),
        k as nat,
        participant_ids(trace[0].participants@).to_set(),
    ) by {
        lemma_progress_trace(trace, k);
    }
}

/// A step never goes back to starting: from starting it reaches a question
/// or, with no question, zero scores for every participant.
pub proof fn step_leaves_starting(
    old: LiveQwizState,
    new: LiveQwizState,
    question: Option<Question>,
    shuffle: bool,
    ids: Seq<i32>,
)
    requires
        state_step(old, new, question, shuffle, ids),
    ensures
        !(new is Starting),
        old is Starting && question is None ==> (new matches LiveQwizState::Finishing(f) && score_record(f.scores@) == zero_scores(ids)),
        old is Starting && question is Some ==> new is Running,
{
}

} // verus!
