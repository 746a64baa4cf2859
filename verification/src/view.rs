//! The presentation mapper: a pure function from the game state to a view
//! description, with no styling or markup detail.

use vstd::prelude::*;
use crate::game::AnsweringQuestionState;
use crate::game::Model;
use crate::game::Question;
use crate::game::State;

verus! {

/// A user-facing control; activating it dispatches the event of the same
/// name to the state machine.
#[derive(Debug, Clone, Copy, PartialEq, Eq)]
pub enum Control {
    Start,
    AnswerTrue,
    AnswerFalse,
    NextQuestion,
}

/// A reference link shown beside an answered question.
#[derive(Debug, PartialEq)]
pub struct Link {
    pub href: String,
    pub text: String,
}

/// What one state of the game looks like: a heading, an optional body
/// message, an optional image, reference links, the controls on offer, and
/// the final score once the game is over.
#[derive(Debug, PartialEq)]
pub struct ViewTree {
    pub heading: String,
    pub message: String,
    pub image_url: Option<String>,
    pub links: Vec<Link>,
    pub controls: Vec<Control>,
    pub score: Option<usize>,
}

/// The score band text for a finished game, out of `NUM_TRIES` rounds:
/// the final message contains exactly this phrase.
pub open spec fn spec_score_message(score: int) -> Seq<char> {
    if score <= 3 {
        "too bad"@
    } else if score <= 7 {
        "not bad"@
    } else if score <= 9 {
        "pretty good"@
    } else if score == 10 {
        "perfect score"@
    } else {
        "unexpected score"@
    }
}

/// What the panel below an already judged question holds: the feedback
/// phrase, the two reference links of the question just answered, and the
/// one control that moves the game on.
pub open spec fn answered_panel(q: Question, feedback: Seq<char>, v: ViewTree) -> bool {
    &&& v.message@ == feedback
    &&& v.links@.len() == 2
    &&& v.links@[0].href@ == q.reddit_url@
    &&& v.links@[0].text@ == "reddit link"@
    &&& v.links@[1].href@ == q.source_url@
    &&& v.links@[1].text@ == "wikihow link"@
    &&& v.controls@.len() == 1
    &&& v.controls@[0] is NextQuestion
}

/// How a round on display is rendered: caption and image of the question,
/// then either the two judgment controls, or the feedback panel with the
/// control for the next round.
pub open spec fn question_renders(q: Question, astate: AnsweringQuestionState, v: ViewTree) -> bool {
    &&& v.heading@ == q.caption@
    &&& v.image_url matches Some(u) && u@ == q.image_url@
    &&& v.score is None
    &&& match astate {
        AnsweringQuestionState::NotAnswered => {
            &&& v.message@ == Seq::<char>::empty()
            &&& v.links@.len() == 0
            &&& v.controls@.len() == 2
            &&& v.controls@[0] is AnswerTrue
            &&& v.controls@[1] is AnswerFalse
        },
        AnsweringQuestionState::Correct => answered_panel(q, "Correct!!"@, v),
        AnsweringQuestionState::Incorrect => answered_panel(q, "Incorrect!! :("@, v),
    }
}

/// How each phase of the game is rendered.
pub open spec fn renders(m: Model, v: ViewTree) -> bool {
    match m.state {
        State::Started => {
            &&& v.heading@ == "Disney Vacation / Not Disney Vacation"@
            &&& v.message@
                == "The game where you try and guess if ridiculous wikihow captions are real"@
            &&& v.image_url is None
            &&& v.links@.len() == 0
            &&& v.controls@.len() == 1
            &&& v.controls@[0] is Start
            &&& v.score is None
        },
        State::Loading => {
            &&& v.heading@ == "Loading...."@
            &&& v.message@ == Seq::<char>::empty()
            &&& v.image_url is None
            &&& v.links@.len() == 0
            &&& v.controls@.len() == 0
            &&& v.score is None
        },
        State::Playing(ps) => question_renders(
            m.questions@[ps.current_question as int],
            ps.state,
            v,
        ),
        State::Done(score) => {
            &&& v.heading@ == "Game Over!"@
            &&& v.message@ == spec_score_message(score as int)
            &&& v.image_url is None
            &&& v.links@.len() == 0
            &&& v.controls@.len() == 1
            &&& v.controls@[0] is Start
            &&& v.score == Some(score)
        },
    }
}

/// Picks the score band text for a finished game. Scores above the round
/// count cannot arise under the game invariant; they fall back to a
/// defensive message rather than failing.
pub fn score_message(score: usize) -> (s: String)
    ensures
        s@ == spec_score_message(score as int),
{
    if score <= 3 {
        String::from_str("too bad")
    } else if score <= 7 {
        String::from_str("not bad")
    } else if score <= 9 {
        String::from_str("pretty good")
    } else if score == 10 {
        String::from_str("perfect score")
    } else {
        String::from_str("unexpected score")
    }
}

/// Builds a reference link.
pub fn link(href: &str, text: &str) -> (l: Link)
    ensures
        l.href@ == href@,
        l.text@ == text@,
{
    Link { href: String::from_str(href), text: String::from_str(text) }
}

/// Renders the question on display: its caption and image, and the controls
/// the answer state calls for.
pub fn question_view(question: &Question, state: &AnsweringQuestionState) -> (v: ViewTree)
    ensures
        question_renders(*question, *state, v),
{
    let mut controls: Vec<Control> = Vec::new();
    let mut links: Vec<Link> = Vec::new();
    let message: String;
    match *state {
        AnsweringQuestionState::NotAnswered => {
            message = String::new();
            controls.push(Control::AnswerTrue);
            controls.push(Control::AnswerFalse);
        },
        AnsweringQuestionState::Correct => {
            message = String::from_str("Correct!!");
            controls.push(Control::NextQuestion);
            links.push(link(question.reddit_url.as_str(), "reddit link"));
            links.push(link(question.source_url.as_str(), "wikihow link"));
        },
        AnsweringQuestionState::Incorrect => {
            message = String::from_str("Incorrect!! :(");
            controls.push(Control::NextQuestion);
            links.push(link(question.reddit_url.as_str(), "reddit link"));
            links.push(link(question.source_url.as_str(), "wikihow link"));
        },
    }
    ViewTree {
        heading: question.caption.clone(),
        message,
        image_url: Some(question.image_url.clone()),
        links,
        controls,
        score: None,
    }
}

/// Maps the current state to its view description. Exhaustive over the
/// phases and answer states; defined whenever the question index is valid,
/// which the game invariant guarantees.
pub fn render(model: &Model) -> (v: ViewTree)
    requires
        model.valid_index(),
    ensures
        renders(*model, v),
{
    match model.state {
        State::Started => ViewTree {
            heading: String::from_str("Disney Vacation / Not Disney Vacation"),
            message: String::from_str(
                "The game where you try and guess if ridiculous wikihow captions are real",
            ),
            image_url: None,
            links: Vec::new(),
            controls: vec![Control::Start],
            score: None,
        },
        State::Loading => ViewTree {
            heading: String::from_str("Loading...."),
            message: String::new(),
            image_url: None,
            links: Vec::new(),
            controls: Vec::new(),
            score: None,
        },
        State::Playing(ps) => question_view(&model.questions[ps.current_question], &ps.state),
        State::Done(score) => ViewTree {
            heading: String::from_str("Game Over!"),
            message: score_message(score),
            image_url: None,
            links: Vec::new(),
            controls: vec![Control::Start],
            score: Some(score),
        },
    }
}

} // verus!
