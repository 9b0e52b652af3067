use qwiz::question::routes::GetQuestionData;
use qwiz::question::{AnswerUpdate, IndexUpdate, NewQuestionData, Question, QuestionColumns};

fn q(index: i32) -> Question {
    Question {
        qwiz_id: 2,
        index,
        body: "b".to_string(),
        answer1: "one".to_string(),
        answer2: "two".to_string(),
        answer3: None,
        answer4: Some("four".to_string()),
        correct: 2,
        embed_uuid: None,
    }
}

fn apply(u: IndexUpdate, i: i32) -> i32 {
    match u {
        IndexUpdate::Unchanged => i,
        IndexUpdate::Shift { lower, upper, delta } => if lower <= i && i <= upper { i + delta } else { i },
    }
}

#[test]
fn moving_a_question_down_the_list() {
    let u = q(1).index_update(3);
    assert_eq!(u, IndexUpdate::Shift { lower: 2, upper: 3, delta: -1 });
    let moved: Vec<i32> = (0..5).map(|i| if i == 1 { 3 } else { apply(u, i) }).collect();
    assert_eq!(moved, vec![0, 3, 1, 2, 4]);
}

#[test]
fn moving_a_question_up_the_list() {
    let u = q(3).index_update(0);
    assert_eq!(u, IndexUpdate::Shift { lower: 0, upper: 2, delta: 1 });
    let moved: Vec<i32> = (0..5).map(|i| if i == 3 { 0 } else { apply(u, i) }).collect();
    assert_eq!(moved, vec![1, 2, 3, 0, 4]);
    assert_eq!(q(2).index_update(2), IndexUpdate::Unchanged);
}

#[test]
fn insert_and_delete_shifts() {
    let ins = Question::insert_shift(2);
    let after: Vec<i32> = (0..4).map(|i| apply(ins, i)).collect();
    assert_eq!(after, vec![0, 1, 3, 4]);
    let del = Question::delete_shift(1);
    let after: Vec<i32> = vec![0, 2, 3].into_iter().map(|i| apply(del, i)).collect();
    assert_eq!(after, vec![0, 1, 2]);
    assert_eq!(Question::delete_shift(i32::MAX), IndexUpdate::Unchanged);
}

#[test]
fn answer_changes() {
    assert!(Question::plan_answer_update(1, None).is_none());
    assert!(Question::plan_answer_update(2, None).is_none());
    assert!(Question::plan_answer_update(5, Some("x".to_string())).is_none());
    assert!(Question::plan_answer_update(0, Some("x".to_string())).is_none());
    let mut question = q(0);
    let u = Question::plan_answer_update(3, None).unwrap();
    assert!(matches!(u, AnswerUpdate::Third(None)));
    question.apply_answer_update(Question::plan_answer_update(1, Some("uno".to_string())).unwrap());
    question.apply_answer_update(Question::plan_answer_update(4, None).unwrap());
    question.apply_answer_update(Question::plan_answer_update(3, Some("three".to_string())).unwrap());
    assert_eq!(question.answer1, "uno");
    assert_eq!(question.answer2, "two");
    assert_eq!(question.answer3, Some("three".to_string()));
    assert_eq!(question.answer4, None);
}

#[test]
fn columns_for_many_questions() {
    let datas = vec![
        NewQuestionData {
            index: None,
            body: "first".to_string(),
            answer1: "a".to_string(),
            answer2: "b".to_string(),
            answer3: None,
            answer4: Some("d".to_string()),
            correct: 1,
            embed_url: None,
        },
        NewQuestionData {
            index: Some(7),
            body: "second".to_string(),
            answer1: "e".to_string(),
            answer2: "f".to_string(),
            answer3: Some("g".to_string()),
            answer4: None,
            correct: 3,
            embed_url: Some("https://x".to_string()),
        },
    ];
    let c = QuestionColumns::from_datas(&datas, &vec![None, Some(42)]);
    assert_eq!(c.indexes, vec![0, 1]);
    assert_eq!(c.bodies, vec!["first", "second"]);
    assert_eq!(c.answers3, vec!["", "g"]);
    assert_eq!(c.answers4, vec!["d", ""]);
    assert_eq!(c.corrects, vec![1, 3]);
    assert_eq!(c.embed_uuids, vec![0, 42]);
}

#[test]
fn question_data_for_clients() {
    let d = GetQuestionData::from_question(q(4), Some("/api/media/upload/x.png".to_string()));
    assert_eq!(d.index, 4);
    assert_eq!(d.asnwer2, "two");
    assert_eq!(d.correct, 2);
    assert_eq!(d.answer4, Some("four".to_string()));
    assert_eq!(d.embed_url, Some("/api/media/upload/x.png".to_string()));
}
