//! The interaction loop's state and decisions.
//!
//! One session holds the current query and the most recently proposed
//! command (the context of the next fetch). Each round the caller fetches a
//! suggestion for the current query, hands the raw reply to
//! [`Session::accept_response`], presents the suggestion, and acts on the
//! user's decision: run the command (ending the loop), revise the query and
//! fetch again, or cancel (ending the loop). The fetching and prompting
//! themselves happen outside the library; every decision about what they
//! carry and where the loop goes next is made — and specified — here.

use crate::parser::{parse_gpt_response, suggestion_of, ParseError, Suggestion, SuggestionView};
use crate::text::{join_spec, join_words, trim_spec, trim_text};
use vstd::prelude::*;

verus! {

/// A user's choice after a suggestion has been presented.
#[derive(Clone, Copy, PartialEq, Eq, Structural, Debug)]
pub enum UserDecision {
    RunCommand,
    ReviseQuery,
    Cancel,
}

/// What a menu selection means: the first entry runs the command, the second
/// revises the query, and anything else — the third entry, an out-of-range
/// index, or no selection at all when the prompt was interrupted — cancels.
pub open spec fn decision_of(selection: Option<usize>) -> UserDecision {
    match selection {
        Some(0usize) => UserDecision::RunCommand,
        Some(1usize) => UserDecision::ReviseQuery,
        _ => UserDecision::Cancel,
    }
}

/// Turns the index chosen in the three-entry menu (or the absence of one)
/// into a decision.
pub fn interpret_selection(selection: Option<usize>) -> (d: UserDecision)
    ensures
        d == decision_of(selection),
{
    match selection {
        Some(0) => UserDecision::RunCommand,
        Some(1) => UserDecision::ReviseQuery,
        _ => UserDecision::Cancel,
    }
}

/// The loop's state: the query to send next, and the most recently proposed
/// command, carried to the next fetch as its context.
pub struct Session {
    pub query: String,
    pub context: Option<String>,
}

/// The mathematical content of a `Session`.
pub ghost struct SessionView {
    pub query: Seq<char>,
    pub context: Option<Seq<char>>,
}

impl View for Session {
    type V = SessionView;

    open spec fn view(&self) -> SessionView {
        SessionView { query: self.query@, context: self.context.deep_view() }
    }
}

/// The state a session starts in: the argument words joined with single
/// spaces and trimmed, and no context yet.
pub open spec fn initial_session(args: Seq<Seq<char>>) -> SessionView {
    SessionView { query: trim_spec(join_spec(args)), context: None }
}

/// How accepting a response changes the session: the context becomes the
/// command the reply proposed — whether or not it is ever run — and the
/// query stays.
pub open spec fn step_response(s: SessionView, raw: Seq<char>) -> SessionView {
    SessionView { query: s.query, context: Some(suggestion_of(raw).command) }
}

/// How a revision changes the session: empty input is rejected and changes
/// nothing; any other input replaces the query wholesale and keeps the
/// context.
pub open spec fn step_revise(s: SessionView, input: Seq<char>) -> SessionView {
    if input.len() == 0 {
        s
    } else {
        SessionView { query: input, context: s.context }
    }
}

impl Session {
    /// Starts a session from the command-line arguments: they join with
    /// single spaces and trim to the initial query. Arguments that join to an
    /// empty or whitespace-only string start no session — the caller then
    /// exits successfully without ever contacting the endpoint.
    pub fn start(args: &Vec<String>) -> (r: Option<Session>)
        ensures
            r is Some <==> trim_spec(join_spec(args.deep_view())).len() != 0,
            r is Some ==> (r->0)@ == initial_session(args.deep_view()),
    {
        let joined = join_words(args);
        let query = trim_text(joined.as_str());
        if query.as_str().is_empty() {
            None
        } else {
            Some(Session { query, context: None })
        }
    }

    /// Accepts the endpoint's raw reply: fails exactly on text that is not
    /// valid JSON — fatal for the caller — and otherwise returns the parsed
    /// suggestion and records its command as the context of the next fetch,
    /// whether or not the user ever runs it.
    pub fn accept_response(&mut self, raw: &str) -> (r: Result<Suggestion, ParseError>)
        ensures
            r is Ok <==> crate::parser::json_parses(raw@),
            r is Ok ==> (r->Ok_0)@ == suggestion_of(raw@),
            r is Ok ==> final(self)@ == step_response(old(self)@, raw@),
            r is Err ==> final(self)@ == old(self)@,
    {
        match parse_gpt_response(raw) {
            Ok(s) => {
                self.context = Some(s.command.clone());
                Ok(s)
            },
            Err(e) => Err(e),
        }
    }

    /// Offers a revised query: empty input is rejected — the caller prompts
    /// again — and any other input replaces the query wholesale, untrimmed,
    /// keeping the context.
    pub fn revise(&mut self, input: &str) -> (accepted: bool)
        ensures
            accepted <==> input@.len() != 0,
            final(self)@ == step_revise(old(self)@, input@),
    {
        if input.is_empty() {
            false
        } else {
            self.query = input.to_owned();
            true
        }
    }
}

/// What the caller must do after a decision: hand the trimmed command to the
/// shell and end the loop, prompt for a revised query, or print the
/// cancellation notice and end the loop.
pub enum Action {
    Execute(String),
    Revise,
    Canceled,
}

/// The mathematical content of an `Action`.
pub ghost enum ActionView {
    Execute(Seq<char>),
    Revise,
    Canceled,
}

impl View for Action {
    type V = ActionView;

    open spec fn view(&self) -> ActionView {
        match self {
            Action::Execute(c) => ActionView::Execute(c@),
            Action::Revise => ActionView::Revise,
            Action::Canceled => ActionView::Canceled,
        }
    }
}

/// The action each decision calls for; a run executes the suggested command
/// with its surrounding whitespace trimmed.
pub open spec fn action_of(d: UserDecision, command: Seq<char>) -> ActionView {
    match d {
        UserDecision::RunCommand => ActionView::Execute(trim_spec(command)),
        UserDecision::ReviseQuery => ActionView::Revise,
        UserDecision::Cancel => ActionView::Canceled,
    }
}

/// Acts on the user's decision about the suggested command.
pub fn act_on_decision(d: UserDecision, command: &str) -> (a: Action)
    ensures
        a@ == action_of(d, command@),
        a is Execute <==> d is RunCommand,
{
    match d {
        UserDecision::RunCommand => Action::Execute(trim_text(command)),
        UserDecision::ReviseQuery => Action::Revise,
        UserDecision::Cancel => Action::Canceled,
    }
}

/// Law: choosing cancel, or making no selection at all, yields the
/// cancellation action and never an execution — however many revisions came
/// before, since the action depends on the decision alone.
pub proof fn lemma_cancel_never_executes(selection: Option<usize>, command: Seq<char>)
    requires
        selection is None || decision_of(selection) is Cancel,
    ensures
        action_of(decision_of(selection), command) is Canceled,
{
}

/// The session as it stands when fetch number `k` (counted from zero) is
/// issued, in a run whose fetch `i` is answered with payload `raws[i]` and
/// followed by a revise choice that replaces the query with `revs[i]`.
pub open spec fn session_at_fetch(
    init: SessionView,
    raws: Seq<Seq<char>>,
    revs: Seq<Seq<char>>,
    k: int,
) -> SessionView
    decreases k,
{
    if k <= 0 {
        init
    } else {
        step_revise(
            step_response(session_at_fetch(init, raws, revs, k - 1), raws[k - 1]),
            revs[k - 1],
        )
    }
}

/// Law: in any run of the loop, the context accompanying fetch `k + 1`
/// equals the command parsed from the response to fetch `k`.
pub proof fn lemma_context_follows_last_command(
    init: SessionView,
    raws: Seq<Seq<char>>,
    revs: Seq<Seq<char>>,
    k: int,
)
    requires
        0 <= k,
    ensures
        session_at_fetch(init, raws, revs, k + 1).context == Some(
            suggestion_of(raws[k]).command,
        ),
{
}

/// How many times the loop fetches, given the user's successive decisions:
/// the initial fetch, plus one more for each leading revise choice; the
/// first run or cancel choice ends the loop.
pub open spec fn fetch_count(decisions: Seq<UserDecision>) -> int
    decreases decisions.len(),
{
    if decisions.len() == 0 {
        1
    } else if decisions[0] is ReviseQuery {
        1 + fetch_count(decisions.drop_first())
    } else {
        1
    }
}

/// Law: `n` revise choices followed by a terminal choice make the endpoint
/// be called exactly `n + 1` times.
pub proof fn lemma_revisions_fetch_once_more(decisions: Seq<UserDecision>, n: int)
    requires
        0 <= n,
        decisions.len() == n + 1,
        forall|i: int| 0 <= i < n ==> decisions[i] is ReviseQuery,
        !(decisions[n] is ReviseQuery),
    ensures
        fetch_count(decisions) == n + 1,
    decreases n,
{
    if n > 0 {
        assert forall|i: int| 0 <= i < n - 1 implies decisions.drop_first()[i]
            is ReviseQuery by {
            assert(decisions.drop_first()[i] == decisions[i + 1]);
        }
        assert(decisions.drop_first()[n - 1] == decisions[n]);
        lemma_revisions_fetch_once_more(decisions.drop_first(), n - 1);
    }
}

} // verus!
