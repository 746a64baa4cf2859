use quiz_core::game::AnsweringQuestionState;
use quiz_core::game::Model;
use quiz_core::game::Msg;
use quiz_core::game::PlayState;
use quiz_core::game::Question;
use quiz_core::game::State;

fn question(is_real: bool, tag: &str) -> Question {
    Question {
        is_real,
        caption: format!("caption {}", tag),
        source_url: format!("https://example.org/source/{}", tag),
        reddit_url: format!("https://example.org/reddit/{}", tag),
        image_url: format!("https://example.org/image/{}", tag),
    }
}

fn pool(n: usize) -> Vec<Question> {
    (0..n).map(|i| question(i % 2 == 0, &i.to_string())).collect()
}

#[test]
fn default_model_is_fresh() {
    let m = Model::default();
    assert!(matches!(m.state, State::Started));
    assert!(m.questions.is_empty());
    assert!(m.is_wf());
}

#[test]
fn start_with_empty_pool_enters_loading() {
    let mut m = Model::default();
    m.update(Msg::Start);
    assert!(matches!(m.state, State::Loading));
    assert!(m.questions.is_empty());
}

#[test]
fn start_with_questions_begins_fresh_game() {
    // A started game has no tries, no score, an unanswered round, and an
    // in-range question index.
    let mut m = Model { state: State::Started, questions: pool(3) };
    m.update(Msg::Start);
    match m.state {
        State::Playing(ps) => {
            assert_eq!(ps.score, 0);
            assert_eq!(ps.tries, 0);
            assert!(ps.current_question < 3);
            assert!(matches!(ps.state, AnsweringQuestionState::NotAnswered));
        }
        other => panic!("expected a playing state, got {:?}", other),
    }
    assert_eq!(m.questions, pool(3));
}

#[test]
fn start_from_done_begins_fresh_game() {
    let mut m = Model { state: State::Done(9), questions: pool(4) };
    m.update(Msg::Start);
    match m.state {
        State::Playing(ps) => {
            assert_eq!(ps.score, 0);
            assert_eq!(ps.tries, 0);
            assert!(ps.current_question < 4);
            assert!(matches!(ps.state, AnsweringQuestionState::NotAnswered));
        }
        other => panic!("expected a playing state, got {:?}", other),
    }
}

#[test]
fn started_game_has_in_range_index() {
    // Would fail if the random draw could hand back its bound unchanged:
    // with one question the only in-range index is 0.
    let mut m = Model { state: State::Started, questions: pool(1) };
    m.update(Msg::Start);
    match m.state {
        State::Playing(ps) => assert_eq!(ps.current_question, 0),
        other => panic!("expected a playing state, got {:?}", other),
    }
}

#[test]
fn five_question_start_scenario() {
    let mut m = Model { state: State::Started, questions: pool(5) };
    m.update(Msg::Start);
    match m.state {
        State::Playing(ps) => {
            assert_eq!(ps.tries, 0);
            assert_eq!(ps.score, 0);
            assert!(ps.current_question < 5);
        }
        other => panic!("expected a playing state, got {:?}", other),
    }
}

#[test]
fn fetched_questions_overwrite_pool() {
    let mut m = Model::default();
    m.update(Msg::FetchedQuestions(Ok(pool(2))));
    assert!(matches!(m.state, State::Started));
    assert_eq!(m.questions, pool(2));
}

#[test]
fn fetched_questions_twice_last_write_wins() {
    // Delivering the same list twice leaves exactly that list: no merge,
    // no append.
    let mut m = Model::default();
    m.update(Msg::FetchedQuestions(Ok(pool(3))));
    m.update(Msg::FetchedQuestions(Ok(pool(3))));
    assert_eq!(m.questions, pool(3));
    assert!(matches!(m.state, State::Started));
}

#[test]
fn fetch_failure_leaves_model_unchanged() {
    let mut m = Model { state: State::Loading, questions: Vec::new() };
    m.update(Msg::FetchedQuestions(Err(String::from("connection refused"))));
    assert!(matches!(m.state, State::Loading));
    assert!(m.questions.is_empty());
}

#[test]
fn answer_events_are_noops_outside_playing() {
    let mut m = Model { state: State::Started, questions: pool(2) };
    m.update(Msg::AnswerTrue);
    assert!(matches!(m.state, State::Started));
    m.update(Msg::AnswerFalse);
    assert!(matches!(m.state, State::Started));
    m.update(Msg::NextQuestion);
    assert!(matches!(m.state, State::Started));
    assert_eq!(m.questions, pool(2));
}

#[test]
fn start_and_fetch_are_noops_while_playing() {
    let ps = PlayState {
        score: 1,
        tries: 2,
        current_question: 0,
        state: AnsweringQuestionState::NotAnswered,
    };
    let mut m = Model { state: State::Playing(ps), questions: pool(2) };
    m.update(Msg::Start);
    assert_eq!(m.state, State::Playing(ps));
    m.update(Msg::FetchedQuestions(Ok(pool(5))));
    assert_eq!(m.state, State::Playing(ps));
    assert_eq!(m.questions, pool(2));
}

#[test]
fn correct_true_answer_scores() {
    // The question at index 2 is real; answering "real" is judged correct
    // and bumps both counters.
    let ps = PlayState {
        score: 3,
        tries: 9,
        current_question: 2,
        state: AnsweringQuestionState::NotAnswered,
    };
    let mut qs = pool(5);
    qs[2].is_real = true;
    let mut m = Model { state: State::Playing(ps), questions: qs };
    m.update(Msg::AnswerTrue);
    match m.state {
        State::Playing(after) => {
            assert_eq!(after.score, 4);
            assert_eq!(after.tries, 10);
            assert_eq!(after.current_question, 2);
            assert!(matches!(after.state, AnsweringQuestionState::Correct));
        }
        other => panic!("expected a playing state, got {:?}", other),
    }
}

#[test]
fn next_question_after_last_round_finishes_game() {
    // Continues the scenario above: all ten rounds played, so the game ends
    // with the accumulated score.
    let ps = PlayState {
        score: 3,
        tries: 9,
        current_question: 2,
        state: AnsweringQuestionState::NotAnswered,
    };
    let mut qs = pool(5);
    qs[2].is_real = true;
    let mut m = Model { state: State::Playing(ps), questions: qs };
    m.update(Msg::AnswerTrue);
    m.update(Msg::NextQuestion);
    assert_eq!(m.state, State::Done(4));
}

#[test]
fn wrong_true_answer_only_bumps_tries() {
    let ps = PlayState {
        score: 0,
        tries: 0,
        current_question: 1,
        state: AnsweringQuestionState::NotAnswered,
    };
    let mut qs = pool(3);
    qs[1].is_real = false;
    let mut m = Model { state: State::Playing(ps), questions: qs };
    m.update(Msg::AnswerTrue);
    match m.state {
        State::Playing(after) => {
            assert_eq!(after.score, 0);
            assert_eq!(after.tries, 1);
            assert!(matches!(after.state, AnsweringQuestionState::Incorrect));
        }
        other => panic!("expected a playing state, got {:?}", other),
    }
}

#[test]
fn correct_false_answer_scores() {
    let ps = PlayState {
        score: 0,
        tries: 0,
        current_question: 1,
        state: AnsweringQuestionState::NotAnswered,
    };
    let mut qs = pool(3);
    qs[1].is_real = false;
    let mut m = Model { state: State::Playing(ps), questions: qs };
    m.update(Msg::AnswerFalse);
    match m.state {
        State::Playing(after) => {
            assert_eq!(after.score, 1);
            assert_eq!(after.tries, 1);
            assert!(matches!(after.state, AnsweringQuestionState::Correct));
        }
        other => panic!("expected a playing state, got {:?}", other),
    }
}

#[test]
fn next_question_mid_game_draws_fresh_round() {
    let ps = PlayState {
        score: 2,
        tries: 4,
        current_question: 0,
        state: AnsweringQuestionState::Correct,
    };
    let mut m = Model { state: State::Playing(ps), questions: pool(3) };
    m.update(Msg::NextQuestion);
    match m.state {
        State::Playing(after) => {
            assert_eq!(after.score, 2);
            assert_eq!(after.tries, 4);
            assert!(after.current_question < 3);
            assert!(matches!(after.state, AnsweringQuestionState::NotAnswered));
        }
        other => panic!("expected a playing state, got {:?}", other),
    }
}

#[test]
fn counters_stay_bounded_through_a_full_game() {
    // A whole view-gated session: the score never exceeds the tries, the
    // tries never exceed ten, and the question index stays in range.
    let mut m = Model { state: State::Started, questions: pool(4) };
    m.update(Msg::Start);
    for _ in 0..10 {
        assert!(m.is_wf());
        match m.state {
            State::Playing(ps) => {
                assert!(ps.current_question < m.questions.len());
                assert!(ps.score <= ps.tries);
                assert!(ps.tries <= 10);
            }
            other => panic!("expected a playing state, got {:?}", other),
        }
        m.update(Msg::AnswerTrue);
        match m.state {
            State::Playing(ps) => {
                assert!(ps.current_question < m.questions.len());
                assert!(ps.score <= ps.tries);
                assert!(ps.tries <= 10);
            }
            other => panic!("expected a playing state, got {:?}", other),
        }
        m.update(Msg::NextQuestion);
    }
    match m.state {
        State::Done(score) => assert!(score <= 10),
        other => panic!("expected a finished game, got {:?}", other),
    }
}
