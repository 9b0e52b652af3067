//! Questions of a qwiz: their answers, their order within the qwiz, and
//! the rules for changing them.

pub mod routes;

use crate::media::MediaError;
use crate::account::{gate_password, password_gate, PasswordOutcome};
use crate::{DbError, Status};
use vstd::prelude::*;

verus! {

/// A question as a client submits it.
#[derive(Debug)]
pub struct NewQuestionData {
    pub index: Option<i32>,
    pub body: String,
    pub answer1: String,
    pub answer2: String,
    pub answer3: Option<String>,
    pub answer4: Option<String>,
    pub correct: i16,
    pub embed_url: Option<String>,
}

/// A stored question: its qwiz, its position in the qwiz, its text, two to
/// four answers, the number (from 1) of the correct answer and an embedded
/// media item.
#[derive(Debug)]
pub struct Question {
    pub qwiz_id: i32,
    pub index: i32,
    pub body: String,
    pub answer1: String,
    pub answer2: String,
    pub answer3: Option<String>,
    pub answer4: Option<String>,
    pub correct: i16,
    pub embed_uuid: Option<u128>,
}

/// The text of an optional answer, if present.
pub open spec fn opt_text(a: Option<String>) -> Seq<Seq<char>> {
    match a {
        Some(s) => seq![s@],
        None => Seq::empty(),
    }
}

/// The answers of a question in order: the first two, then the third and
/// the fourth where they are present.
pub open spec fn answer_list(q: Question) -> Seq<Seq<char>> {
    seq![q.answer1@, q.answer2@] + opt_text(q.answer3) + opt_text(q.answer4)
}

/// The correct-answer number of `q` names one of its answers.
pub open spec fn valid_correct(q: Question) -> bool {
    1 <= q.correct <= answer_list(q).len()
}

/// Copy of a text.
pub fn copy_text(s: &String) -> (r: String)
    ensures
        r@ == s@,
{
    s.clone()
}

/// The answers of `q`, in order.
pub fn answers_of(q: &Question) -> (r: Vec<String>)
    ensures
        r@.map_values(|s: String| s@) == answer_list(*q),
{
    let mut answers: Vec<String> = Vec::new();
    answers.push(copy_text(&q.answer1));
    answers.push(copy_text(&q.answer2));
    if let Some(a3) = &q.answer3 {
        answers.push(copy_text(a3));
    }
    if let Some(a4) = &q.answer4 {
        answers.push(copy_text(a4));
    }
    assert(answers@.map_values(|s: String| s@) =~= answer_list(*q));
    answers
}

/// What storing questions failed on: the database, the base64 content of
/// an embedded item, or writing its file (with the error's text).
#[derive(Debug)]
pub enum QuestionError {
    Sqlx(DbError),
    Base64(base64::DecodeError),
    IO(String),
}

impl From<MediaError> for QuestionError {
    fn from(value: MediaError) -> (r: Self) {
        match value {
            MediaError::Sqlx(e) => QuestionError::Sqlx(e),
            MediaError::Base64(e) => QuestionError::Base64(e),
            MediaError::IO(e) => QuestionError::IO(e),
        }
    }
}

/// The question error that a media error amounts to.
pub open spec fn question_error_of(e: MediaError) -> QuestionError {
    match e {
        MediaError::Sqlx(d) => QuestionError::Sqlx(d),
        MediaError::Base64(d) => QuestionError::Base64(d),
        MediaError::IO(t) => QuestionError::IO(t),
    }
}

impl vstd::std_specs::convert::FromSpecImpl<MediaError> for QuestionError {
    open spec fn obeys_from_spec() -> bool {
        true
    }

    open spec fn from_spec(v: MediaError) -> Self {
        question_error_of(v)
    }
}

impl From<DbError> for QuestionError {
    fn from(value: DbError) -> (r: Self) {
        QuestionError::Sqlx(value)
    }
}

impl vstd::std_specs::convert::FromSpecImpl<DbError> for QuestionError {
    open spec fn obeys_from_spec() -> bool {
        true
    }

    open spec fn from_spec(v: DbError) -> Self {
        QuestionError::Sqlx(v)
    }
}

// ----- the order of the questions of a qwiz -----

/// A change of the positions of stored questions: every question whose
/// index lies in `lower..=upper` moves by `delta`.
#[derive(Clone, Copy, Debug, PartialEq, Eq, Structural)]
pub enum IndexUpdate {
    Unchanged,
    Shift { lower: i32, upper: i32, delta: i32 },
}

/// Where a question at index `i` ends up under `u`.
pub open spec fn shifted(i: int, u: IndexUpdate) -> int {
    match u {
        IndexUpdate::Unchanged => i,
        IndexUpdate::Shift { lower, upper, delta } => if lower <= i <= upper { i + delta } else { i },
    }
}

/// Where the question at `i` ends up when a question is inserted at `k`.
pub open spec fn index_after_insert(i: int, k: int) -> int {
    if i >= k { i + 1 } else { i }
}

/// Where the question at `i` (other than `k`) ends up when the question at
/// `k` is deleted.
pub open spec fn index_after_delete(i: int, k: int) -> int {
    if i > k { i - 1 } else { i }
}

/// Where the question at `i` ends up when the question at `cur` moves to `new`.
pub open spec fn index_after_move(i: int, cur: int, new: int) -> int {
    if i == cur {
        new
    } else if new > cur && cur < i <= new {
        i - 1
    } else if new < cur && new <= i < cur {
        i + 1
    } else {
        i
    }
}

impl Question {
    /// The shift made before a question is inserted at `index`: every
    /// question at `index` or after moves up by one.
    pub fn insert_shift(index: i32) -> (r: IndexUpdate)
        ensures
            forall|i: i32| #[trigger] shifted(i as int, r) == index_after_insert(i as int, index as int),
    {
        IndexUpdate::Shift { lower: index, upper: i32::MAX, delta: 1 }
    }

    /// The shift made after the question at `index` is deleted: every
    /// question after it moves down by one.
    pub fn delete_shift(index: i32) -> (r: IndexUpdate)
        ensures
            forall|i: i32| #[trigger] shifted(i as int, r) == index_after_delete(i as int, index as int),
    {
        if index == i32::MAX {
            IndexUpdate::Unchanged
        } else {
            IndexUpdate::Shift { lower: index + 1, upper: i32::MAX, delta: -1 }
        }
    }

    /// The shift of the other questions when this question moves to
    /// `new_index` (it is taken out first and put back at `new_index`):
    /// `Unchanged` when it stays where it is.
    pub fn index_update(&self, new_index: i32) -> (r: IndexUpdate)
        ensures
            (r == IndexUpdate::Unchanged) <==> (new_index == self.index),
            forall|i: i32| i != self.index ==> #[trigger] shifted(i as int, r) == index_after_move(i as int, self.index as int, new_index as int),
    {
        if new_index == self.index {
            IndexUpdate::Unchanged
        } else if new_index > self.index {
            IndexUpdate::Shift { lower: self.index + 1, upper: new_index, delta: -1 }
        } else {
            IndexUpdate::Shift { lower: new_index, upper: self.index - 1, delta: 1 }
        }
    }
}

/// Some question of `0 .. n` is at `j` after an insertion at `k`.
pub open spec fn reached_by_insert(n: int, k: int, j: int) -> bool {
    exists|i: int| 0 <= i < n && #[trigger] index_after_insert(i, k) == j
}

/// Some question of `0 .. n` other than `k` is at `j` after `k` is deleted.
pub open spec fn reached_by_delete(n: int, k: int, j: int) -> bool {
    exists|i: int| 0 <= i < n && i != k && #[trigger] index_after_delete(i, k) == j
}

/// Some question of `0 .. n` is at `j` after `cur` moves to `new`.
pub open spec fn reached_by_move(n: int, cur: int, new: int, j: int) -> bool {
    exists|i: int| 0 <= i < n && #[trigger] index_after_move(i, cur, new) == j
}

/// Inserting a question at `k` (with `0 <= k <= n`) into a qwiz whose
/// questions are at `0 .. n` leaves them at `0 ..= n` with `k` free, each
/// at its own index.
pub proof fn insert_keeps_indices_contiguous(n: int, k: int)
    requires
        0 <= k <= n,
    ensures
        forall|i: int| 0 <= i < n ==> 0 <= #[trigger] index_after_insert(i, k) <= n && index_after_insert(i, k) != k,
        forall|i: int, j: int| 0 <= i < n && 0 <= j < n && i != j ==> #[trigger] index_after_insert(i, k) != #[trigger] index_after_insert(j, k),
        forall|j: int| 0 <= j <= n && j != k ==> #[trigger] reached_by_insert(n, k, j),
{
    assert forall|j: int| 0 <= j <= n && j != k implies #[trigger] reached_by_insert(n, k, j) by {
        if j < k {
            assert(index_after_insert(j, k) == j);
        } else {
            assert(index_after_insert(j - 1, k) == j);
        }
    }
}

/// Deleting the question at `k` (with `0 <= k < n`) from a qwiz whose
/// questions are at `0 .. n` leaves the others at `0 .. n - 1`, each at its
/// own index.
pub proof fn delete_keeps_indices_contiguous(n: int, k: int)
    requires
        0 <= k < n,
    ensures
        forall|i: int| 0 <= i < n && i != k ==> 0 <= #[trigger] index_after_delete(i, k) < n - 1,
        forall|i: int, j: int| 0 <= i < n && 0 <= j < n && i != k && j != k && i != j
            ==> #[trigger] index_after_delete(i, k) != #[trigger] index_after_delete(j, k),
        forall|j: int| 0 <= j < n - 1 ==> #[trigger] reached_by_delete(n, k, j),
{
    assert forall|j: int| 0 <= j < n - 1 implies #[trigger] reached_by_delete(n, k, j) by {
        if j < k {
            assert(index_after_delete(j, k) == j);
        } else {
            assert(index_after_delete(j + 1, k) == j);
        }
    }
}

/// Moving the question at `cur` to `new` (both in `0 .. n`) permutes the
/// indices `0 .. n`: every question keeps an index in range, no two share
/// one, and every index is taken.
pub proof fn move_permutes_indices(n: int, cur: int, new: int)
    requires
        0 <= cur < n,
        0 <= new < n,
    ensures
        forall|i: int| 0 <= i < n ==> 0 <= #[trigger] index_after_move(i, cur, new) < n,
        forall|i: int, j: int| 0 <= i < n && 0 <= j < n && i != j
            ==> #[trigger] index_after_move(i, cur, new) != #[trigger] index_after_move(j, cur, new),
        forall|j: int| 0 <= j < n ==> #[trigger] reached_by_move(n, cur, new, j),
{
    assert forall|j: int| 0 <= j < n implies #[trigger] reached_by_move(n, cur, new, j) by {
        if j == new {
            assert(index_after_move(cur, cur, new) == j);
        } else if new > cur && cur <= j < new {
            assert(index_after_move(j + 1, cur, new) == j);
        } else if new < cur && new < j <= cur {
            assert(index_after_move(j - 1, cur, new) == j);
        } else {
            assert(index_after_move(j, cur, new) == j);
        }
    }
}

// ----- changing one answer -----

/// A change of one answer: the first two must be present, the last two may
/// be removed.
#[derive(Debug)]
pub enum AnswerUpdate {
    First(String),
    Second(String),
    Third(Option<String>),
    Fourth(Option<String>),
}

/// The change that answer `answer_number` set to `new_answer` asks for;
/// `None` (nothing changes) for an unknown number, or for removing one of
/// the first two answers.
pub open spec fn answer_plan(answer_number: u8, new_answer: Option<String>) -> Option<AnswerUpdate> {
    if answer_number == 1 {
        match new_answer {
            Some(a) => Some(AnswerUpdate::First(a)),
            None => None,
        }
    } else if answer_number == 2 {
        match new_answer {
            Some(a) => Some(AnswerUpdate::Second(a)),
            None => None,
        }
    } else if answer_number == 3 {
        Some(AnswerUpdate::Third(new_answer))
    } else if answer_number == 4 {
        Some(AnswerUpdate::Fourth(new_answer))
    } else {
        None
    }
}

impl Question {
    /// The change asked for by setting answer `answer_number` to
    /// `new_answer`, if it is allowed.
    pub fn plan_answer_update(answer_number: u8, new_answer: Option<String>) -> (r: Option<AnswerUpdate>)
        ensures
            r == answer_plan(answer_number, new_answer),
    {
        match answer_number {
            1 => match new_answer {
                Some(a) => Some(AnswerUpdate::First(a)),
                None => None,
            },
            2 => match new_answer {
                Some(a) => Some(AnswerUpdate::Second(a)),
                None => None,
            },
            3 => Some(AnswerUpdate::Third(new_answer)),
            4 => Some(AnswerUpdate::Fourth(new_answer)),
            _ => None,
        }
    }

    /// Applies a stored answer change to this question.
    pub fn apply_answer_update(&mut self, update: AnswerUpdate)
        ensures
            final(self).qwiz_id == old(self).qwiz_id,
            final(self).index == old(self).index,
            final(self).body == old(self).body,
            final(self).correct == old(self).correct,
            final(self).embed_uuid == old(self).embed_uuid,
            final(self).answer1 == (if let AnswerUpdate::First(a) = update { a } else { old(self).answer1 }),
            final(self).answer2 == (if let AnswerUpdate::Second(a) = update { a } else { old(self).answer2 }),
            final(self).answer3 == (if let AnswerUpdate::Third(a) = update { a } else { old(self).answer3 }),
            final(self).answer4 == (if let AnswerUpdate::Fourth(a) = update { a } else { old(self).answer4 }),
    {
        match update {
            AnswerUpdate::First(a) => self.answer1 = a,
            AnswerUpdate::Second(a) => self.answer2 = a,
            AnswerUpdate::Third(a) => self.answer3 = a,
            AnswerUpdate::Fourth(a) => self.answer4 = a,
        }
    }
}

/// Answer `n` (from 1) of `q`, if present; `None` for another number.
pub open spec fn answer_slot(q: Question, n: int) -> Option<String> {
    if n == 1 {
        Some(q.answer1)
    } else if n == 2 {
        Some(q.answer2)
    } else if n == 3 {
        q.answer3
    } else if n == 4 {
        q.answer4
    } else {
        None
    }
}

/// Setting answer `n` (1 to 4) to `new_answer` changes answer `n` and no
/// other: when the change is allowed (a present text for the first two, any
/// value for the last two), applying it leaves answer `n` equal to
/// `new_answer` and every other answer and field as it was.
pub proof fn setting_an_answer_changes_that_answer(
    q: Question,
    n: u8,
    new_answer: Option<String>,
    after: Question,
    u: AnswerUpdate,
)
    requires
        1 <= n <= 4,
        n <= 2 ==> new_answer is Some,
        answer_plan(n, new_answer) == Some(u),
        after.qwiz_id == q.qwiz_id,
        after.index == q.index,
        after.body == q.body,
        after.correct == q.correct,
        after.embed_uuid == q.embed_uuid,
        after.answer1 == (if let AnswerUpdate::First(a) = u { a } else { q.answer1 }),
        after.answer2 == (if let AnswerUpdate::Second(a) = u { a } else { q.answer2 }),
        after.answer3 == (if let AnswerUpdate::Third(a) = u { a } else { q.answer3 }),
        after.answer4 == (if let AnswerUpdate::Fourth(a) = u { a } else { q.answer4 }),
    ensures
        answer_slot(after, n as int) == new_answer,
        forall|m: int| 1 <= m <= 4 && m != n ==> #[trigger] answer_slot(after, m) == answer_slot(q, m),
{
}

/// Every allowed answer change is planned: setting answer 1 or 2 to a
/// text, or answer 3 or 4 to anything, gives a change; removing answer 1
/// or 2, or an answer number outside 1 to 4, gives none.
pub proof fn allowed_answer_changes_are_planned(n: u8, new_answer: Option<String>)
    ensures
        answer_plan(n, new_answer) is Some <==> ((n == 1 || n == 2) && new_answer is Some) || n == 3 || n == 4,
{
}

/// A question always keeps its first two answers: no allowed change removes
/// either of them.
pub proof fn first_answers_stay(answer_number: u8, new_answer: Option<String>)
    requires
        answer_plan(answer_number, new_answer) is Some,
        answer_number == 1 || answer_number == 2,
    ensures
        new_answer is Some,
{
}

// ----- storing many questions at once -----

/// The columns in which many new questions are stored at once, one entry
/// per question. A missing third or fourth answer is stored as an empty
/// text, a missing embedded item as the nil id (0).
#[derive(Debug)]
pub struct QuestionColumns {
    pub indexes: Vec<i32>,
    pub bodies: Vec<String>,
    pub answers1: Vec<String>,
    pub answers2: Vec<String>,
    pub answers3: Vec<String>,
    pub answers4: Vec<String>,
    pub corrects: Vec<i16>,
    pub embed_uuids: Vec<u128>,
}

/// The text stored for an optional answer: the answer, or empty.
pub open spec fn text_or_empty(a: Option<String>) -> Seq<char> {
    match a {
        Some(s) => s@,
        None => Seq::empty(),
    }
}

fn copy_or_empty(a: &Option<String>) -> (r: String)
    ensures
        r@ == text_or_empty(*a),
{
    match a {
        Some(s) => s.clone(),
        None => String::new(),
    }
}

impl QuestionColumns {
    /// The columns for `datas`, numbered from 0 in order, with the ids of
    /// their embedded items as stored (`None` where a question has none).
    pub fn from_datas(datas: &Vec<NewQuestionData>, embed_uuids: &Vec<Option<u128>>) -> (r: Self)
        requires
            embed_uuids@.len() == datas@.len(),
        ensures
            r.indexes@.len() == datas@.len(),
            r.bodies@.len() == datas@.len(),
            r.answers1@.len() == datas@.len(),
            r.answers2@.len() == datas@.len(),
            r.answers3@.len() == datas@.len(),
            r.answers4@.len() == datas@.len(),
            r.corrects@.len() == datas@.len(),
            r.embed_uuids@.len() == datas@.len(),
            forall|i: int| 0 <= i < datas@.len() ==> {
                &&& #[trigger] r.indexes@[i] == i as i32
                &&& r.bodies@[i]@ == datas@[i].body@
                &&& r.answers1@[i]@ == datas@[i].answer1@
                &&& r.answers2@[i]@ == datas@[i].answer2@
                &&& r.answers3@[i]@ == text_or_empty(datas@[i].answer3)
                &&& r.answers4@[i]@ == text_or_empty(datas@[i].answer4)
                &&& r.corrects@[i] == datas@[i].correct
                &&& r.embed_uuids@[i] == match embed_uuids@[i] {
                    Some(u) => u,
                    None => 0u128,
                }
            },
    {
        let mut c = QuestionColumns {
            indexes: Vec::new(),
            bodies: Vec::new(),
            answers1: Vec::new(),
            answers2: Vec::new(),
            answers3: Vec::new(),
            answers4: Vec::new(),
            corrects: Vec::new(),
            embed_uuids: Vec::new(),
        };
        let mut n: usize = 0;
        while n < datas.len()
            invariant
                n <= datas@.len(),
                embed_uuids@.len() == datas@.len(),
                c.indexes@.len() == n,
                c.bodies@.len() == n,
                c.answers1@.len() == n,
                c.answers2@.len() == n,
                c.answers3@.len() == n,
                c.answers4@.len() == n,
                c.corrects@.len() == n,
                c.embed_uuids@.len() == n,
                forall|i: int| 0 <= i < n ==> {
                    &&& #[trigger] c.indexes@[i] == i as i32
                    &&& c.bodies@[i]@ == datas@[i].body@
                    &&& c.answers1@[i]@ == datas@[i].answer1@
                    &&& c.answers2@[i]@ == datas@[i].answer2@
                    &&& c.answers3@[i]@ == text_or_empty(datas@[i].answer3)
                    &&& c.answers4@[i]@ == text_or_empty(datas@[i].answer4)
                    &&& c.corrects@[i] == datas@[i].correct
                    &&& c.embed_uuids@[i] == match embed_uuids@[i] {
                        Some(u) => u,
                        None => 0u128,
                    }
                },
            decreases datas@.len() - n,
        {
            let d = &datas[n];
            c.indexes.push(#[verifier::truncate] (n as i32));
            c.bodies.push(d.body.clone());
            c.answers1.push(d.answer1.clone());
            c.answers2.push(d.answer2.clone());
            c.answers3.push(copy_or_empty(&d.answer3));
            c.answers4.push(copy_or_empty(&d.answer4));
            c.corrects.push(d.correct);
            let u: u128 = match embed_uuids[n] {
                Some(u) => u,
                None => 0,
            };
            c.embed_uuids.push(u);
            n = n + 1;
        }
        c
    }
}

/// Deleting the question just inserted at `k` puts every other question
/// back at its old index; and re-inserting at `k` after deleting the
/// question at `k` puts every other question back too.
pub proof fn delete_undoes_insert(i: int, k: int)
    ensures
        index_after_delete(index_after_insert(i, k), k) == i,
        index_after_insert(i, k) != k,
        i != k ==> index_after_insert(index_after_delete(i, k), k) == i,
{
}

// ----- changing a question on request -----

/// Which fields of a question a change request carries, and how many
/// answer changes it lists.
#[derive(Clone, Copy, Debug, PartialEq, Eq, Structural)]
pub struct QuestionPatch {
    pub new_index: bool,
    pub new_body: bool,
    pub new_answers: usize,
    pub new_correct: bool,
    pub new_embed_url: bool,
}

/// One write of a question: a field, or the `i`-th listed answer change.
#[derive(Clone, Copy, Debug, PartialEq, Eq, Structural)]
pub enum QuestionWrite {
    Index,
    Body,
    Answer(usize),
    Correct,
    EmbedUrl,
}

/// The writes a change request asks for, in the order they are made: the
/// index, the body, each listed answer change in turn, the correct answer
/// and the embedded link, each where present.
pub open spec fn question_writes(p: QuestionPatch) -> Seq<QuestionWrite> {
    (if p.new_index { seq![QuestionWrite::Index] } else { Seq::empty() })
    + (if p.new_body { seq![QuestionWrite::Body] } else { Seq::empty() })
    + Seq::new(p.new_answers as nat, |i: int| QuestionWrite::Answer(i as usize))
    + (if p.new_correct { seq![QuestionWrite::Correct] } else { Seq::empty() })
    + (if p.new_embed_url { seq![QuestionWrite::EmbedUrl] } else { Seq::empty() })
}

/// The place of a write among the writes of a question change with `n`
/// answer changes.
pub open spec fn question_write_rank(w: QuestionWrite, n: int) -> int {
    match w {
        QuestionWrite::Index => 0,
        QuestionWrite::Body => 1,
        QuestionWrite::Answer(i) => 2 + i,
        QuestionWrite::Correct => 2 + n,
        QuestionWrite::EmbedUrl => 3 + n,
    }
}

/// Every field a change request carries is written exactly once, and no
/// other: the writes hold the index, body, correct answer and embedded
/// link exactly when the request carries them, and the `i`-th answer change
/// exactly for each `i` it lists, whatever else it carries; they come in
/// the order index, body, the answer changes in turn, correct answer,
/// embedded link, each once.
pub proof fn question_writes_are_the_carried_fields(p: QuestionPatch)
    ensures
        question_writes(p).contains(QuestionWrite::Index) <==> p.new_index,
        question_writes(p).contains(QuestionWrite::Body) <==> p.new_body,
        question_writes(p).contains(QuestionWrite::Correct) <==> p.new_correct,
        question_writes(p).contains(QuestionWrite::EmbedUrl) <==> p.new_embed_url,
        forall|i: usize| #[trigger] question_writes(p).contains(QuestionWrite::Answer(i)) <==> i < p.new_answers,
        forall|i: int, j: int| 0 <= i < j < question_writes(p).len()
            ==> question_write_rank(#[trigger] question_writes(p)[i], p.new_answers as int)
                < question_write_rank(#[trigger] question_writes(p)[j], p.new_answers as int),
{
    let s = question_writes(p);
    let n = p.new_answers as int;
    let h = (if p.new_index { 1int } else { 0int }) + (if p.new_body { 1int } else { 0int });
    let c = if p.new_correct { 1int } else { 0int };
    lemma_question_write_position(p, 0);
    assert forall|i: int, j: int| 0 <= i < j < s.len()
        implies question_write_rank(#[trigger] s[i], n) < question_write_rank(#[trigger] s[j], n) by {
        lemma_question_write_position(p, i);
        lemma_question_write_position(p, j);
    }
    assert forall|x: QuestionWrite| #[trigger] s.contains(x) implies (match x {
        QuestionWrite::Index => p.new_index,
        QuestionWrite::Body => p.new_body,
        QuestionWrite::Answer(i) => i < p.new_answers,
        QuestionWrite::Correct => p.new_correct,
        QuestionWrite::EmbedUrl => p.new_embed_url,
    }) by {
        let k = choose|k: int| 0 <= k < s.len() && s[k] == x;
        lemma_question_write_position(p, k);
    }
    if p.new_index {
        lemma_question_write_position(p, 0);
        assert(s[0] == QuestionWrite::Index);
    }
    if p.new_body {
        lemma_question_write_position(p, h - 1);
        assert(s[h - 1] == QuestionWrite::Body);
    }
    assert forall|i: usize| i < p.new_answers implies #[trigger] s.contains(QuestionWrite::Answer(i)) by {
        lemma_question_write_position(p, h + i);
        assert(s[h + i] == QuestionWrite::Answer(i));
    }
    if p.new_correct {
        lemma_question_write_position(p, h + n);
        assert(s[h + n] == QuestionWrite::Correct);
    }
    if p.new_embed_url {
        lemma_question_write_position(p, h + n + c);
        assert(s[h + n + c] == QuestionWrite::EmbedUrl);
    }
}

/// Where the `k`-th write of a question change stands.
proof fn lemma_question_write_position(p: QuestionPatch, k: int)
    ensures
        ({
            let n = p.new_answers as int;
            let h = (if p.new_index { 1int } else { 0int }) + (if p.new_body { 1int } else { 0int });
            let c = if p.new_correct { 1int } else { 0int };
            &&& question_writes(p).len() == h + n + c + (if p.new_embed_url { 1int } else { 0int })
            &&& 0 <= k < question_writes(p).len() ==> question_writes(p)[k] == (
                if k < h {
                    if k == 0 && p.new_index { QuestionWrite::Index } else { QuestionWrite::Body }
                } else if k < h + n {
                    QuestionWrite::Answer((k - h) as usize)
                } else if k < h + n + c {
                    QuestionWrite::Correct
                } else {
                    QuestionWrite::EmbedUrl
                }
            )
        }),
{
    let a = if p.new_index { seq![QuestionWrite::Index] } else { Seq::<QuestionWrite>::empty() };
    let b = if p.new_body { seq![QuestionWrite::Body] } else { Seq::<QuestionWrite>::empty() };
    let m = Seq::new(p.new_answers as nat, |i: int| QuestionWrite::Answer(i as usize));
    let cs = if p.new_correct { seq![QuestionWrite::Correct] } else { Seq::<QuestionWrite>::empty() };
    let e = if p.new_embed_url { seq![QuestionWrite::EmbedUrl] } else { Seq::<QuestionWrite>::empty() };
    let ab = a + b;
    let abm = ab + m;
    let abmc = abm + cs;
    assert(question_writes(p) == abmc + e);
    let h = ab.len() as int;
    let n = m.len() as int;
    if 0 <= k < question_writes(p).len() {
        if k < h {
            assert(question_writes(p)[k] == ab[k]);
            if p.new_index {
                assert(ab[0] == QuestionWrite::Index);
            }
        } else if k < h + n {
            assert(question_writes(p)[k] == abm[k]);
            assert(abm[k] == m[k - h]);
        } else if k < h + n + cs.len() {
            assert(question_writes(p)[k] == abmc[k]);
            assert(abmc[k] == cs[k - h - n]);
        } else {
            assert(question_writes(p)[k] == e[k - h - n - cs.len()]);
        }
    }
}

/// The text a failed write is refused with.
pub open spec fn question_write_refusal(w: QuestionWrite) -> Seq<char> {
    match w {
        QuestionWrite::Index => "Bad index"@,
        QuestionWrite::Body => "Bad body"@,
        QuestionWrite::Answer(_) => "Bad answer"@,
        QuestionWrite::Correct => "Bad correct"@,
        QuestionWrite::EmbedUrl => "Bad embed url"@,
    }
}

fn refusal_text(w: QuestionWrite) -> (r: &'static str)
    ensures
        r@ == question_write_refusal(w),
{
    match w {
        QuestionWrite::Index => "Bad index",
        QuestionWrite::Body => "Bad body",
        QuestionWrite::Answer(_) => "Bad answer",
        QuestionWrite::Correct => "Bad correct",
        QuestionWrite::EmbedUrl => "Bad embed url",
    }
}

/// How far a change request has got: how many of its writes are done.
#[derive(Clone, Copy, Debug, PartialEq, Eq, Structural)]
pub struct QuestionPatchState {
    pub patch: QuestionPatch,
    pub written: usize,
}

/// What the service learned while changing a question.
#[derive(Debug)]
pub enum QuestionPatchEvent {
    /// The request came in.
    Start,
    /// Whether the question exists.
    QuestionFound(bool),
    /// The creator's password was checked: `None` when the qwiz does not
    /// exist.
    CreatorChecked(Option<PasswordOutcome>),
    /// The pending write succeeded, or not.
    Written(bool),
}

/// What the service does next while changing a question.
#[derive(Debug)]
pub enum QuestionPatchAction {
    /// Look the question up.
    LookUpQuestion,
    /// Check the password of the qwiz's creator.
    CheckCreator,
    /// Make this write.
    Write(QuestionWrite),
    /// Answer the request with a status.
    Answer(Status),
    /// Answer 400 Bad Request with this text.
    Refuse(&'static str),
}

/// The write after `s`, or 200 OK when all are done.
pub open spec fn question_next(s: QuestionPatchState) -> QuestionPatchAction {
    if s.written < question_writes(s.patch).len() {
        QuestionPatchAction::Write(question_writes(s.patch)[s.written as int])
    } else {
        QuestionPatchAction::Answer(Status { code: 200 })
    }
}

/// The `i`-th write of `p`, if there is one.
fn question_write_at(p: &QuestionPatch, i: usize) -> (r: Option<QuestionWrite>)
    ensures
        r == if i < question_writes(*p).len() {
            Some(question_writes(*p)[i as int])
        } else {
            None::<QuestionWrite>
        },
        r is Some ==> i < usize::MAX,
{
    let ghost head = (if p.new_index { seq![QuestionWrite::Index] } else { Seq::<QuestionWrite>::empty() })
        + (if p.new_body { seq![QuestionWrite::Body] } else { Seq::<QuestionWrite>::empty() });
    let mut v: Vec<QuestionWrite> = Vec::new();
    if p.new_index {
        v.push(QuestionWrite::Index);
    }
    if p.new_body {
        v.push(QuestionWrite::Body);
    }
    assert(v@ =~= head);
    let mut j: usize = 0;
    while j < p.new_answers
        invariant
            j <= p.new_answers,
            v@ =~= head + Seq::new(j as nat, |k: int| QuestionWrite::Answer(k as usize)),
        decreases p.new_answers - j,
    {
        v.push(QuestionWrite::Answer(j));
        j = j + 1;
    }
    if p.new_correct {
        v.push(QuestionWrite::Correct);
    }
    if p.new_embed_url {
        v.push(QuestionWrite::EmbedUrl);
    }
    assert(v@ =~= question_writes(*p));
    if i < v.len() {
        Some(v[i])
    } else {
        None
    }
}

fn question_next_action(s: QuestionPatchState) -> (r: QuestionPatchAction)
    ensures
        r == question_next(s),
{
    match question_write_at(&s.patch, s.written) {
        Some(w) => QuestionPatchAction::Write(w),
        None => QuestionPatchAction::Answer(Status { code: 200 }),
    }
}

/// The next step of changing a question: a missing question or qwiz is
/// 404 Not Found; the creator's password must be right (a missing creator
/// account or a failed check is 500, a wrong password 401 Unauthorized);
/// then the index, the body, each answer change, the correct answer and the
/// embedded link are written in that order, each where the request carries
/// it; the first failed write is refused with that field's text; when all
/// are done, 200 OK.
pub fn update_question_step(state: QuestionPatchState, event: QuestionPatchEvent) -> (r: (QuestionPatchState, QuestionPatchAction))
    ensures
        event is Start ==> r == (state, QuestionPatchAction::LookUpQuestion),
        event matches QuestionPatchEvent::QuestionFound(found) ==> r == (state, if found {
            QuestionPatchAction::CheckCreator
        } else {
            QuestionPatchAction::Answer(Status { code: 404 })
        }),
        event matches QuestionPatchEvent::CreatorChecked(c) ==> match c {
            None => r == (state, QuestionPatchAction::Answer(Status { code: 404 })),
            Some(PasswordOutcome::NoAccount(_)) => r == (state, QuestionPatchAction::Answer(Status { code: 500 })),
            Some(PasswordOutcome::CheckFailed) => r == (state, QuestionPatchAction::Answer(Status { code: 500 })),
            Some(PasswordOutcome::Answered(false)) => r == (state, QuestionPatchAction::Answer(Status { code: 401 })),
            Some(PasswordOutcome::Answered(true)) => r.0 == QuestionPatchState { patch: state.patch, written: 0 } && r.1 == question_next(r.0),
        },
        event matches QuestionPatchEvent::Written(ok) ==> {
            if state.written < question_writes(state.patch).len() {
                if ok {
                    r.0 == QuestionPatchState { patch: state.patch, written: (state.written + 1) as usize } && r.1 == question_next(r.0)
                } else {
                    &&& r.0 == state
                    &&& r.1 matches QuestionPatchAction::Refuse(t)
                        && t@ == question_write_refusal(question_writes(state.patch)[state.written as int])
                }
            } else {
                r == (state, QuestionPatchAction::Answer(Status { code: if ok { 200 } else { 500 } }))
            }
        },
{
    match event {
        QuestionPatchEvent::Start => (state, QuestionPatchAction::LookUpQuestion),
        QuestionPatchEvent::QuestionFound(found) => if found {
            (state, QuestionPatchAction::CheckCreator)
        } else {
            (state, QuestionPatchAction::Answer(Status { code: 404 }))
        },
        QuestionPatchEvent::CreatorChecked(c) => match c {
            None => (state, QuestionPatchAction::Answer(Status { code: 404 })),
            Some(PasswordOutcome::NoAccount(_)) => (state, QuestionPatchAction::Answer(Status { code: 500 })),
            Some(PasswordOutcome::CheckFailed) => (state, QuestionPatchAction::Answer(Status { code: 500 })),
            Some(PasswordOutcome::Answered(ok)) => if ok {
                let s = QuestionPatchState { patch: state.patch, written: 0 };
                (s, question_next_action(s))
            } else {
                (state, QuestionPatchAction::Answer(Status { code: 401 }))
            },
        },
        QuestionPatchEvent::Written(ok) => match question_write_at(&state.patch, state.written) {
            Some(w) => if ok {
                let s = QuestionPatchState { patch: state.patch, written: state.written + 1 };
                (s, question_next_action(s))
            } else {
                (state, QuestionPatchAction::Refuse(refusal_text(w)))
            },
            None => (state, QuestionPatchAction::Answer(Status { code: if ok { 200 } else { 500 } })),
        },
    }
}

/// What the service learned while deleting a question.
#[derive(Debug)]
pub enum DeleteQuestionEvent {
    /// The request came in.
    Start,
    /// Whether the question exists.
    QuestionFound(bool),
    /// The creator's password was checked: `None` when the qwiz does not
    /// exist.
    CreatorChecked(Option<PasswordOutcome>),
    /// The question was deleted, or not.
    Deleted(bool),
}

/// What the service does next while deleting a question.
#[derive(Debug)]
pub enum DeleteQuestionAction {
    LookUpQuestion,
    CheckCreator,
    Delete,
    Answer(Status),
}

/// The next step of deleting a question: a missing question or qwiz is 404
/// Not Found; the creator's password must be right (a missing creator
/// account or a failed check is 500, a wrong password 401); then it is
/// deleted: 200 OK, or 500.
pub fn delete_question_step(event: DeleteQuestionEvent) -> (r: DeleteQuestionAction)
    ensures
        event is Start ==> r == DeleteQuestionAction::LookUpQuestion,
        event matches DeleteQuestionEvent::QuestionFound(found) ==> r == if found {
            DeleteQuestionAction::CheckCreator
        } else {
            DeleteQuestionAction::Answer(Status { code: 404 })
        },
        event matches DeleteQuestionEvent::CreatorChecked(c) ==> r == match c {
            None => DeleteQuestionAction::Answer(Status { code: 404 }),
            Some(o) => match password_gate(o, Status { code: 500 }) {
                Some(s) => DeleteQuestionAction::Answer(s),
                None => DeleteQuestionAction::Delete,
            },
        },
        event matches DeleteQuestionEvent::Deleted(ok) ==> r == DeleteQuestionAction::Answer(Status { code: if ok { 200 } else { 500 } }),
{
    match event {
        DeleteQuestionEvent::Start => DeleteQuestionAction::LookUpQuestion,
        DeleteQuestionEvent::QuestionFound(found) => if found {
            DeleteQuestionAction::CheckCreator
        } else {
            DeleteQuestionAction::Answer(Status { code: 404 })
        },
        DeleteQuestionEvent::CreatorChecked(c) => match c {
            None => DeleteQuestionAction::Answer(Status { code: 404 }),
            Some(o) => match gate_password(&o, Status { code: 500 }) {
                Some(s) => DeleteQuestionAction::Answer(s),
                None => DeleteQuestionAction::Delete,
            },
        },
        DeleteQuestionEvent::Deleted(ok) => DeleteQuestionAction::Answer(Status { code: if ok { 200 } else { 500 } }),
    }
}

} // verus!
