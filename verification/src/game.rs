//! The game state machine: a `Model` (current phase plus the loaded question
//! pool) evolves in response to `Msg` events, one transition per event.

use vstd::prelude::*;

verus! {

/// Number of rounds in one game session.
pub const NUM_TRIES: usize = 10;

/// One quiz question: a caption and image the player must judge as real
/// (`is_real`) or fabricated, plus reference links shown after answering.
#[derive(Debug, Clone, PartialEq)]
pub struct Question {
    pub is_real: bool,
    pub caption: String,
    pub source_url: String,
    pub reddit_url: String,
    pub image_url: String,
}

/// Progress of the round currently being played.
#[derive(Debug, Clone, Copy, PartialEq)]
pub struct PlayState {
    /// Questions answered correctly so far.
    pub score: usize,
    /// Rounds attempted so far.
    pub tries: usize,
    /// Index into the question pool of the question on display.
    pub current_question: usize,
    /// Whether the current question has been judged yet.
    pub state: AnsweringQuestionState,
}

/// Whether the current round's answer has been judged correct, incorrect,
/// or not yet given.
#[derive(Debug, Clone, Copy, PartialEq)]
pub enum AnsweringQuestionState {
    NotAnswered,
    Correct,
    Incorrect,
}

/// The coarse stage of the game session.
#[derive(Debug, Clone, Copy, PartialEq)]
pub enum State {
    /// No game in progress yet.
    Started,
    /// The player asked to start before the questions arrived.
    Loading,
    /// An active round.
    Playing(PlayState),
    /// Game finished with the given score; terminal until restarted.
    Done(usize),
}

/// The whole session state: current phase and the question pool.
#[derive(Debug, Clone, PartialEq)]
pub struct Model {
    pub state: State,
    pub questions: Vec<Question>,
}

/// Events the state machine interprets: player controls and the completion
/// of the one question fetch (a question list, or a failure reason).
#[derive(Debug)]
pub enum Msg {
    Start,
    FetchedQuestions(Result<Vec<Question>, String>),
    AnswerTrue,
    AnswerFalse,
    NextQuestion,
}

impl Model {
    /// The current question index stays inside the pool whenever a round is
    /// being played.
    pub open spec fn valid_index(self) -> bool {
        self.state matches State::Playing(ps) ==> ps.current_question < self.questions@.len()
    }

    /// What `update` needs of its input: a valid question index and counters
    /// inside the session bounds.
    pub open spec fn wf(self) -> bool {
        &&& self.valid_index()
        &&& self.state matches State::Playing(ps) ==> ps.score <= ps.tries <= NUM_TRIES
    }

    /// The invariant of every state reachable through view-gated events:
    /// the score never exceeds the tries, the tries never exceed the round
    /// count, an unanswered round still has a try left, and a finished game
    /// reports a score within the round count.
    pub open spec fn inv(self) -> bool {
        &&& self.wf()
        &&& self.state matches State::Playing(ps) ==> (ps.state is NotAnswered ==> ps.tries
            < NUM_TRIES)
        &&& self.state matches State::Done(score) ==> score <= NUM_TRIES
    }

    /// Runtime check of `wf`, for callers outside verified code.
    pub fn is_wf(&self) -> (b: bool)
        ensures
            b == self.wf(),
    {
        match self.state {
            State::Playing(ps) => ps.current_question < self.questions.len() && ps.score
                <= ps.tries && ps.tries <= NUM_TRIES,
            _ => true,
        }
    }

    /// Whether interpreting `msg` in state `self` draws a fresh random
    /// question index.
    pub open spec fn draws(self, msg: Msg) -> bool {
        match self.state {
            State::Playing(ps) => msg is NextQuestion && ps.tries < NUM_TRIES,
            _ => msg is Start && self.questions@.len() > 0,
        }
    }

    /// The transition function of the game, made deterministic by taking the
    /// drawn question index `idx` as an argument; `idx` is read only when
    /// `draws(self, msg)` holds.
    pub open spec fn step(self, msg: Msg, idx: usize) -> Model {
        match self.state {
            State::Playing(ps) => match msg {
                Msg::AnswerTrue => Model {
                    state: State::Playing(
                        self.answered(ps, self.questions@[ps.current_question as int].is_real),
                    ),
                    questions: self.questions,
                },
                Msg::AnswerFalse => Model {
                    state: State::Playing(
                        self.answered(ps, !self.questions@[ps.current_question as int].is_real),
                    ),
                    questions: self.questions,
                },
                Msg::NextQuestion => if ps.tries >= NUM_TRIES {
                    Model { state: State::Done(ps.score), questions: self.questions }
                } else {
                    Model {
                        state: State::Playing(
                            PlayState {
                                current_question: idx,
                                state: AnsweringQuestionState::NotAnswered,
                                ..ps
                            },
                        ),
                        questions: self.questions,
                    }
                },
                _ => self,
            },
            _ => match msg {
                Msg::Start => if self.questions@.len() > 0 {
                    Model {
                        state: State::Playing(
                            PlayState {
                                score: 0,
                                tries: 0,
                                current_question: idx,
                                state: AnsweringQuestionState::NotAnswered,
                            },
                        ),
                        questions: self.questions,
                    }
                } else {
                    Model { state: State::Loading, questions: self.questions }
                },
                Msg::FetchedQuestions(Ok(qs)) => Model { state: self.state, questions: qs },
                _ => self,
            },
        }
    }

    /// The round state after judging the current question, `correct` saying
    /// whether the player's judgment matched the question.
    pub open spec fn answered(self, ps: PlayState, correct: bool) -> PlayState {
        PlayState {
            tries: (ps.tries + 1) as usize,
            score: if correct {
                (ps.score + 1) as usize
            } else {
                ps.score
            },
            state: if correct {
                AnsweringQuestionState::Correct
            } else {
                AnsweringQuestionState::Incorrect
            },
            current_question: ps.current_question,
        }
    }

    /// How a state may follow another under `msg`: `post` is `step` of `pre`
    /// for some in-range draw of the random question index.
    pub open spec fn transition(pre: Model, msg: Msg, post: Model) -> bool {
        exists|idx: usize|
            #![auto]
            (pre.draws(msg) ==> idx < pre.questions@.len()) && post == pre.step(msg, idx)
    }

    /// Interprets one event against the current state, as the transition
    /// table prescribes. Deterministic but for the freshly drawn question
    /// index, hence the relational postcondition.
    pub fn update(&mut self, msg: Msg)
        requires
            old(self).wf(),
        ensures
            Model::transition(*old(self), msg, *final(self)),
    {
        let ghost gmsg = msg;
        let ghost mut gidx: usize = 0;
        match self.state {
            State::Playing(ps) => {
                match msg {
                    Msg::AnswerTrue => {
                        let correct = self.questions[ps.current_question].is_real;
                        self.state = State::Playing(self.judge(ps, correct));
                    },
                    Msg::AnswerFalse => {
                        let correct = !self.questions[ps.current_question].is_real;
                        self.state = State::Playing(self.judge(ps, correct));
                    },
                    Msg::NextQuestion => {
                        if ps.tries >= NUM_TRIES {
                            self.state = State::Done(ps.score);
                        } else {
                            let idx = random_below(self.questions.len());
                            proof {
                                gidx = idx;
                            }
                            self.state = State::Playing(
                                PlayState {
                                    current_question: idx,
                                    state: AnsweringQuestionState::NotAnswered,
                                    ..ps
                                },
                            );
                        }
                    },
                    _ => {},
                }
            },
            _ => {
                match msg {
                    Msg::Start => {
                        if self.questions.len() > 0 {
                            let idx = random_below(self.questions.len());
                            proof {
                                gidx = idx;
                            }
                            self.state = State::Playing(
                                PlayState {
                                    score: 0,
                                    tries: 0,
                                    current_question: idx,
                                    state: AnsweringQuestionState::NotAnswered,
                                },
                            );
                        } else {
                            self.state = State::Loading;
                        }
                    },
                    Msg::FetchedQuestions(result) => {
                        match result {
                            Ok(questions) => {
                                self.questions = questions;
                            },
                            Err(_reason) => {
                                // The failure is only reported to the host's
                                // diagnostic log; the phase stays unchanged.
                            },
                        }
                    },
                    _ => {},
                }
            },
        }
        proof {
            assert((old(self).draws(gmsg) ==> gidx < old(self).questions@.len()) && *self == old(
                self,
            ).step(gmsg, gidx));
        }
    }

    /// The exec counterpart of `answered`: settles the current round once
    /// the player's judgment is known to be `correct` or not.
    fn judge(&self, ps: PlayState, correct: bool) -> (r: PlayState)
        requires
            self.state matches State::Playing(p) && p == ps,
            self.wf(),
        ensures
            r == self.answered(ps, correct),
    {
        PlayState {
            tries: ps.tries + 1,
            score: if correct {
                ps.score + 1
            } else {
                ps.score
            },
            state: if correct {
                AnsweringQuestionState::Correct
            } else {
                AnsweringQuestionState::Incorrect
            },
            current_question: ps.current_question,
        }
    }
}

/// LAW: the freshly created session satisfies the game invariant; together
/// with `lemma_transition_preserves_inv` this carries the invariant to every
/// reachable state.
pub proof fn lemma_initial_inv(m: Model)
    requires
        m.state == State::Started,
    ensures
        m.inv(),
{
}

/// LAW: every transition from a state whose question index is valid leads to
/// a state whose question index is valid: whenever a round is on display,
/// `current_question` indexes into the question pool.
pub proof fn lemma_transition_preserves_valid_index(pre: Model, msg: Msg, post: Model)
    requires
        pre.valid_index(),
        Model::transition(pre, msg, post),
    ensures
        post.valid_index(),
{
    let idx = choose|idx: usize|
        #![auto]
        (pre.draws(msg) ==> idx < pre.questions@.len()) && post == pre.step(msg, idx);
}

/// LAW: the score never exceeds the tries, whatever event arrives.
pub proof fn lemma_transition_preserves_score_le_tries(pre: Model, msg: Msg, post: Model)
    requires
        pre.wf(),
        Model::transition(pre, msg, post),
    ensures
        post.state matches State::Playing(ps) ==> ps.score <= ps.tries,
{
    let idx = choose|idx: usize|
        #![auto]
        (pre.draws(msg) ==> idx < pre.questions@.len()) && post == pre.step(msg, idx);
}

/// LAW: the game invariant — `score <= tries <= NUM_TRIES` alongside a valid
/// question index — is preserved by every transition except a repeated
/// answer to an already judged round, the one event sequence the view never
/// offers (answer controls are shown only while the round is unanswered).
pub proof fn lemma_transition_preserves_inv(pre: Model, msg: Msg, post: Model)
    requires
        pre.inv(),
        Model::transition(pre, msg, post),
        !(pre.state matches State::Playing(ps) && !(ps.state is NotAnswered) && (msg
            is AnswerTrue || msg is AnswerFalse)),
    ensures
        post.inv(),
{
    let idx = choose|idx: usize|
        #![auto]
        (pre.draws(msg) ==> idx < pre.questions@.len()) && post == pre.step(msg, idx);
}

/// LAW: dispatching `NextQuestion` once all rounds are played finishes the
/// game with the accumulated score, whatever the answer state of the last
/// round, and leaves the question pool unchanged.
pub proof fn lemma_next_question_at_limit(pre: Model, post: Model)
    requires
        pre.state matches State::Playing(ps) && ps.tries == NUM_TRIES,
        Model::transition(pre, Msg::NextQuestion, post),
    ensures
        pre.state matches State::Playing(ps) ==> post.state == State::Done(ps.score),
        post.questions == pre.questions,
{
    let idx = choose|idx: usize|
        #![auto]
        (pre.draws(Msg::NextQuestion) ==> idx < pre.questions@.len()) && post == pre.step(
            Msg::NextQuestion,
            idx,
        );
}

/// LAW: `Start` with a non-empty question pool, from any phase without an
/// active round, begins a fresh game: no tries, no score, an unanswered
/// round at an in-range question index, the pool untouched.
pub proof fn lemma_start_with_questions(pre: Model, post: Model)
    requires
        !(pre.state is Playing),
        pre.questions@.len() > 0,
        Model::transition(pre, Msg::Start, post),
    ensures
        post.state matches State::Playing(ps) && ps.tries == 0 && ps.score == 0 && ps.state
            is NotAnswered && ps.current_question < pre.questions@.len(),
        post.questions == pre.questions,
{
    let idx = choose|idx: usize|
        #![auto]
        (pre.draws(Msg::Start) ==> idx < pre.questions@.len()) && post == pre.step(Msg::Start, idx);
}

/// LAW: delivering the fetched question list twice leaves exactly that list
/// in the model — the last write wins, nothing is merged — and the phase is
/// untouched, as long as no round is active (during a round the delivery is
/// ignored).
pub proof fn lemma_fetch_last_write_wins(pre: Model, qs: Vec<Question>, mid: Model, post: Model)
    requires
        !(pre.state is Playing),
        Model::transition(pre, Msg::FetchedQuestions(Ok(qs)), mid),
        Model::transition(mid, Msg::FetchedQuestions(Ok(qs)), post),
    ensures
        mid.questions == qs,
        post.questions == qs,
        post.state == pre.state,
{
    let msg = Msg::FetchedQuestions(Ok(qs));
    let idx1 = choose|idx: usize|
        #![auto]
        (pre.draws(msg) ==> idx < pre.questions@.len()) && mid == pre.step(msg, idx);
    let msg2 = Msg::FetchedQuestions(Ok(qs));
    let idx2 = choose|idx: usize|
        #![auto]
        (mid.draws(msg2) ==> idx < mid.questions@.len()) && post == mid.step(msg2, idx);
}

impl Default for Model {
    /// The session starts with no game in progress and no questions loaded.
    fn default() -> (m: Self)
        ensures
            m.state == State::Started,
            m.questions@ == Seq::<Question>::empty(),
    {
        Model { state: State::Started, questions: Vec::new() }
    }
}

/// Relies on rand::random_range: the sampled value lies in the given range,
/// here `0..n`; an empty range is excluded by the precondition.
#[verifier::external_body]
fn random_below(n: usize) -> (r: usize)
    requires
        1 <= n,
    ensures
        r < n,
{
    rand::random_range(0..n)
}

} // verus!
