use rust_quiz::engine::{AnswerResult, QuizState};
use rust_quiz::quiz::{Level, Quiz};

fn mock_quiz(correct: usize) -> Quiz {
    Quiz {
        id: 1,
        title: "Test",
        question: "Q?",
        code: None,
        choices: vec!["A", "B", "C"],
        correct,
        explanation: "Because.",
        tags: vec![],
        level: Level::Intro,
    }
}

#[test]
fn test_correct_answer_increases_score() {
    let quizzes = vec![mock_quiz(1)];
    let mut state = QuizState::new();

    let result = state.answer(&quizzes, 1);

    assert_eq!(result, AnswerResult::Correct);
    assert_eq!(state.score, 1);
    assert!(state.finished);
}

#[test]
fn test_wrong_answer_does_not_increase_score() {
    let quizzes = vec![mock_quiz(2)];
    let mut state = QuizState::new();

    let result = state.answer(&quizzes, 0);

    assert_eq!(result, AnswerResult::Wrong);
    assert_eq!(state.score, 0);
    assert!(state.finished);
}

#[test]
fn test_progress_tracking() {
    let quizzes = vec![mock_quiz(0), mock_quiz(1)];
    let mut state = QuizState::new();

    state.answer(&quizzes, 0);
    let (current, total) = state.progress(quizzes.len());

    assert_eq!(current, 1);
    assert_eq!(total, 2);
}

#[test]
fn test_reset_state() {
    let quizzes = vec![mock_quiz(0)];
    let mut state = QuizState::new();

    state.answer(&quizzes, 0);
    state.reset();

    assert_eq!(state.current, 0);
    assert_eq!(state.score, 0);
    assert!(!state.finished);
}

#[test]
fn test_answer_after_finished_is_inert() {
    let quizzes = vec![mock_quiz(0)];
    let mut state = QuizState::new();

    let first = state.answer(&quizzes, 0);
    assert_eq!(first, AnswerResult::Correct);
    let current = state.current;
    let score = state.score;
    assert!(state.finished);

    let second = state.answer(&quizzes, 0);
    assert_eq!(second, AnswerResult::Finished);
    assert_eq!(state.current, current);
    assert_eq!(state.score, score);
    assert!(state.finished);
}

#[test]
fn test_empty_session_is_immediately_finished() {
    let quizzes: Vec<Quiz> = vec![];
    let mut state = QuizState::new();

    assert!(state.current_quiz(&quizzes).is_none());

    let result = state.answer(&quizzes, 0);
    assert_eq!(result, AnswerResult::Finished);
    assert!(state.finished);
    assert_eq!(state.score, 0);
    assert_eq!(state.current, 0);
}

#[test]
fn test_out_of_range_choice_is_wrong() {
    let quizzes = vec![mock_quiz(1), mock_quiz(0)];
    let mut state = QuizState::new();

    let result = state.answer(&quizzes, 99);
    assert_eq!(result, AnswerResult::Wrong);
    assert_eq!(state.score, 0);
    assert_eq!(state.current, 1);
    assert!(!state.finished);
}

#[test]
fn test_current_quiz_tracks_the_active_question() {
    let mut second = mock_quiz(0);
    second.id = 2;
    let quizzes = vec![mock_quiz(1), second];
    let mut state = QuizState::new();

    assert_eq!(state.current_quiz(&quizzes).unwrap().id, 1);
    // repeated calls return the same question
    assert_eq!(state.current_quiz(&quizzes).unwrap().id, 1);

    state.answer(&quizzes, 1);
    assert_eq!(state.current_quiz(&quizzes).unwrap().id, 2);

    state.answer(&quizzes, 0);
    assert!(state.current_quiz(&quizzes).is_none());
}

#[test]
fn test_score_never_exceeds_progress() {
    let quizzes = vec![mock_quiz(0), mock_quiz(2), mock_quiz(1)];
    let mut state = QuizState::new();

    for choice in [0, 0, 1] {
        state.answer(&quizzes, choice);
        assert!(state.score <= state.current);
        assert!(state.current <= quizzes.len());
    }
    assert_eq!(state.score, 2);
    assert!(state.finished);
}

#[test]
fn test_progress_is_capped_at_total() {
    let quizzes = vec![mock_quiz(0)];
    let mut state = QuizState::new();

    assert_eq!(state.progress(1), (0, 1));
    state.answer(&quizzes, 0);
    assert_eq!(state.progress(1), (1, 1));
    // a smaller total caps the answered count
    assert_eq!(state.progress(0), (0, 0));
}
