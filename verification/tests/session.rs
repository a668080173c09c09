use quiz_trainer::models::{Question, QuizError};
use quiz_trainer::quiz_state::QuizState;

fn question(id: usize, limit: u64) -> Question {
    Question {
        id,
        question: format!("prompt {}", id),
        hints: Vec::new(),
        answer: format!("answer {}", id),
        time_limit_secs: limit,
    }
}

#[test]
fn empty_bank_is_rejected() {
    let r = QuizState::new(Vec::new(), 0);
    assert!(matches!(r, Err(QuizError::EmptyQuestionBank)));
}

#[test]
fn zero_time_limit_is_rejected() {
    let r = QuizState::new(vec![question(1, 60), question(2, 0)], 0);
    assert!(matches!(r, Err(QuizError::InvalidDuration)));
}

#[test]
fn new_session_starts_at_first_question() {
    let s = QuizState::new(vec![question(1, 60), question(2, 120)], 7).unwrap();
    assert_eq!(s.current_index(), 0);
    assert_eq!(s.total_questions(), 2);
    assert_eq!(s.current_question().id, 1);
    assert_eq!(s.timer().limit, 60);
    assert_eq!(s.timer().started_at, 7);
    assert!(!s.is_last_question());
}

#[test]
fn advance_is_noop_while_time_remains() {
    let mut s = QuizState::new(vec![question(1, 60), question(2, 120)], 0).unwrap();
    s.next_question(30);
    assert_eq!(s.current_index(), 0);
    assert_eq!(s.timer().started_at, 0);
    assert_eq!(s.timer().limit, 60);
    s.next_question(59);
    assert_eq!(s.current_index(), 0);
}

#[test]
fn advance_when_expired_moves_and_rebinds_timer() {
    let mut s = QuizState::new(vec![question(1, 60), question(2, 120)], 0).unwrap();
    s.next_question(60);
    assert_eq!(s.current_index(), 1);
    assert_eq!(s.current_question().id, 2);
    assert_eq!(s.timer().started_at, 60);
    assert_eq!(s.timer().limit, 120);
    assert!(s.is_last_question());
}

#[test]
fn advance_on_last_question_is_noop_even_when_expired() {
    let mut s = QuizState::new(vec![question(1, 60), question(2, 120)], 0).unwrap();
    s.next_question(60);
    assert_eq!(s.current_index(), 1);
    for now in [180, 300, 1000] {
        s.next_question(now);
        assert_eq!(s.current_index(), 1);
        assert_eq!(s.timer().started_at, 60);
        assert_eq!(s.timer().limit, 120);
    }
}

#[test]
fn expired_advances_visit_every_question_in_order() {
    let bank: Vec<Question> = (1..=4).map(|id| question(id, 10)).collect();
    let mut s = QuizState::new(bank, 0).unwrap();
    let mut visited = vec![s.current_index()];
    let mut now = 0;
    for _ in 0..3 {
        now += 10;
        s.next_question(now);
        visited.push(s.current_index());
    }
    assert_eq!(visited, vec![0, 1, 2, 3]);
    assert!(s.is_last_question());
}
