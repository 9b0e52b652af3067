use qwiz::live::{FinishingLiveQwiz, LiveQwiz, LiveQwizOptions, LiveQwizParticipant, LiveQwizState, RunningLiveQwiz};
use qwiz::question::Question;

fn question(correct: i16, third: bool, fourth: bool) -> Question {
    Question {
        qwiz_id: 1,
        index: 0,
        body: "What?".to_string(),
        answer1: "a".to_string(),
        answer2: "b".to_string(),
        answer3: if third { Some("c".to_string()) } else { None },
        answer4: if fourth { Some("d".to_string()) } else { None },
        correct,
        embed_uuid: None,
    }
}

fn participant(id: i32) -> LiveQwizParticipant {
    LiveQwizParticipant { id, display_name: format!("p{id}"), profile_picture_uri: String::new() }
}

#[test]
fn answers_follow_the_given_order() {
    let q = question(3, true, true);
    let r = RunningLiveQwiz::from_order(&q, vec![2, 0, 3, 1], &vec![7, 8]);
    assert_eq!(r.current_answers, vec!["c", "a", "d", "b"]);
    assert_eq!(r.correct_answer, 0);
    assert_eq!(r.question_number, 0);
    assert_eq!(r.accepted_answers.len(), 2);
    assert!(r.accepted_answers[&7].is_empty());
}

#[test]
fn missing_third_answer_skips_to_fourth() {
    let q = question(3, false, true);
    let r = RunningLiveQwiz::new(q, false, vec![1]);
    assert_eq!(r.current_answers, vec!["a", "b", "d"]);
    assert_eq!(r.correct_answer, 2);
}

#[test]
fn shuffled_answers_keep_the_correct_one_marked() {
    for _ in 0..50 {
        let q = question(2, true, true);
        let r = RunningLiveQwiz::new(q, true, vec![1, 2]);
        assert_eq!(r.current_answers.len(), 4);
        assert_eq!(r.current_answers[r.correct_answer as usize], "b");
        let mut sorted = r.current_answers.clone();
        sorted.sort();
        assert_eq!(sorted, vec!["a", "b", "c", "d"]);
    }
}

#[test]
fn next_pads_records_and_counts_up() {
    let mut r = RunningLiveQwiz::from_order(&question(1, false, false), vec![0, 1], &vec![5, 6]);
    r.accepted_answers.get_mut(&5).unwrap().push(true);
    match r.next(Some(question(2, true, false)), false, vec![]) {
        LiveQwizState::Running(n) => {
            assert_eq!(n.question_number, 1);
            assert_eq!(n.current_answers, vec!["a", "b", "c"]);
            assert_eq!(n.correct_answer, 1);
            assert_eq!(n.accepted_answers[&5], vec![true]);
            assert_eq!(n.accepted_answers[&6], vec![false]);
            assert_eq!(n.accepted_answers.len(), 2);
        }
        _ => panic!("expected a running state"),
    }
}

#[test]
fn next_without_question_gives_scores() {
    let mut r = RunningLiveQwiz::from_order(&question(1, false, false), vec![0, 1], &vec![5, 6]);
    *r.accepted_answers.get_mut(&5).unwrap() = vec![true, false, true];
    match r.next(None, false, vec![9]) {
        LiveQwizState::Finishing(f) => {
            assert_eq!(f.scores.len(), 2);
            assert_eq!(f.scores[&5], 2);
            assert_eq!(f.scores[&6], 0);
        }
        _ => panic!("expected scores"),
    }
}

#[test]
fn finishing_new_gives_zero_scores() {
    let f = FinishingLiveQwiz::new(vec![3, 4, 3]);
    assert_eq!(f.scores.len(), 2);
    assert_eq!(f.scores[&3], 0);
}

#[test]
fn state_next_from_each_phase() {
    let mut s = LiveQwizState::Starting(qwiz::live::StartingLiveQwiz());
    s.next(None, false, vec![1, 2]);
    match &s {
        LiveQwizState::Finishing(f) => assert_eq!(f.scores.len(), 2),
        _ => panic!("expected finishing"),
    }
    s.next(Some(question(1, false, false)), false, vec![1]);
    assert!(matches!(s, LiveQwizState::Finishing(_)));
    let mut s = LiveQwizState::Starting(qwiz::live::StartingLiveQwiz());
    s.next(Some(question(1, false, false)), false, vec![1]);
    assert!(matches!(s, LiveQwizState::Running(_)));
}

#[test]
fn live_qwiz_runs_through_its_questions() {
    let options = LiveQwizOptions { shuffle_questions: false, shuffle_answers: false };
    let mut lq = LiveQwiz::new(9, options, vec![question(1, false, false), question(2, true, true)], vec![participant(1), participant(2)]);
    assert_eq!(lq.questions.len(), 2);
    lq.progress();
    match &lq.state {
        LiveQwizState::Running(r) => {
            assert_eq!(r.question_number, 0);
            assert_eq!(r.correct_answer, 0);
            assert_eq!(r.accepted_answers.len(), 2);
        }
        _ => panic!("expected first question"),
    }
    assert_eq!(lq.questions.len(), 1);
    lq.progress();
    match &lq.state {
        LiveQwizState::Running(r) => {
            assert_eq!(r.question_number, 1);
            assert_eq!(r.current_answers, vec!["a", "b", "c", "d"]);
            assert_eq!(r.accepted_answers[&1], vec![false]);
        }
        _ => panic!("expected second question"),
    }
    lq.progress();
    match &lq.state {
        LiveQwizState::Finishing(f) => {
            assert_eq!(f.scores[&1], 0);
            assert_eq!(f.scores[&2], 0);
        }
        _ => panic!("expected scores"),
    }
    lq.progress();
    assert!(matches!(lq.state, LiveQwizState::Finishing(_)));
    assert_eq!(lq.qwiz_id, 9);
}

#[test]
fn live_qwiz_without_questions_finishes_at_once() {
    let options = LiveQwizOptions { shuffle_questions: false, shuffle_answers: true };
    let mut lq = LiveQwiz::new(1, options, vec![], vec![participant(4)]);
    lq.progress();
    match &lq.state {
        LiveQwizState::Finishing(f) => assert_eq!(f.scores[&4], 0),
        _ => panic!("expected scores"),
    }
}
