//! From a conversation history to a chat request, and from the service's
//! answer to the text that a script gets back.

use crate::config::{adapter_from_string, AdapterKind, ModelConfig, ModelConfigView};
use crate::text::{same_text, starts_with};
use vstd::prelude::*;
use vstd::string::*;

verus! {

/// Who speaks in a turn of a conversation.
#[derive(Clone, Copy, Debug, PartialEq, Eq, Structural)]
pub enum Role {
    User,
    Assistant,
    System,
}

/// The role that a name stands for, if it is one of `user`, `assistant`,
/// `system`.
pub open spec fn known_role(name: Seq<char>) -> Option<Role> {
    if name == "user"@ {
        Some(Role::User)
    } else if name == "assistant"@ {
        Some(Role::Assistant)
    } else if name == "system"@ {
        Some(Role::System)
    } else {
        None
    }
}

/// One turn as a mathematical value.
pub struct TurnView {
    pub role: Role,
    pub content: Seq<char>,
}

/// One message of a conversation, with the role of who said it.
#[derive(Clone, Debug, PartialEq, Eq)]
pub struct ConversationTurn {
    pub role: Role,
    pub content: String,
}

impl View for ConversationTurn {
    type V = TurnView;

    open spec fn view(&self) -> TurnView {
        TurnView { role: self.role, content: self.content@ }
    }
}

impl DeepView for ConversationTurn {
    type V = TurnView;

    open spec fn deep_view(&self) -> TurnView {
        self@
    }
}

/// The turn that a history entry stands for: its first element names the
/// role, its second is the content, and what follows is not read. An entry
/// with fewer than two elements, or with a role that is not known, stands
/// for no turn.
pub open spec fn turn_of(entry: Seq<Seq<char>>) -> Option<TurnView> {
    if entry.len() >= 2 {
        match known_role(entry[0]) {
            Some(role) => Some(TurnView { role, content: entry[1] }),
            None => None,
        }
    } else {
        None
    }
}

/// `turn_of` as a function value.
pub open spec fn turn_fn() -> spec_fn(Seq<Seq<char>>) -> Option<TurnView> {
    |entry: Seq<Seq<char>>| turn_of(entry)
}

/// Whether an entry stands for a turn.
pub open spec fn valid_fn() -> spec_fn(Seq<Seq<char>>) -> bool {
    |entry: Seq<Seq<char>>| turn_of(entry) is Some
}

/// The turns of a history: those that its entries stand for, oldest first.
/// Entries that stand for no turn leave no trace.
pub open spec fn translate(history: Seq<Seq<Seq<char>>>) -> Seq<TurnView> {
    history.filter_map(turn_fn())
}

/// How many entries of a history stand for a turn.
pub open spec fn valid_entries(history: Seq<Seq<Seq<char>>>) -> nat {
    history.filter(valid_fn()).len()
}

/// The turns of a request: those of the history, then the new message as a
/// turn of the user.
pub open spec fn request_turns(history: Seq<Seq<Seq<char>>>, message: Seq<char>) -> Seq<TurnView> {
    translate(history).push(TurnView { role: Role::User, content: message })
}

/// Where a request goes, as a mathematical value.
pub struct ServiceTargetView {
    pub endpoint: Seq<char>,
    pub auth: Seq<char>,
    pub adapter: AdapterKind,
    pub model_name: Seq<char>,
}

/// Where a request goes: the endpoint's address, the credential, and the
/// model, which is named by an adapter and a model name.
#[derive(Clone, Debug, PartialEq, Eq)]
pub struct ServiceTarget {
    pub endpoint: String,
    pub auth: String,
    pub adapter: AdapterKind,
    pub model_name: String,
}

impl View for ServiceTarget {
    type V = ServiceTargetView;

    open spec fn view(&self) -> ServiceTargetView {
        ServiceTargetView {
            endpoint: self.endpoint@,
            auth: self.auth@,
            adapter: self.adapter,
            model_name: self.model_name@,
        }
    }
}

/// A chat request as a mathematical value.
pub struct PromptRequestView {
    pub target: ServiceTargetView,
    pub turns: Seq<TurnView>,
}

/// All that one chat request needs. It holds copies: a change of the
/// configuration after it was made does not reach it.
#[derive(Clone, Debug, PartialEq, Eq)]
pub struct PromptRequest {
    pub target: ServiceTarget,
    pub turns: Vec<ConversationTurn>,
}

impl View for PromptRequest {
    type V = PromptRequestView;

    open spec fn view(&self) -> PromptRequestView {
        PromptRequestView { target: self.target@, turns: self.turns.deep_view() }
    }
}

/// The request that a prompt makes under a configuration: it goes to the
/// configured endpoint with the configured credential, names the model by
/// the resolved adapter and the configured model name, and carries the
/// turns of the history followed by the new message.
pub open spec fn planned_request(
    config: ModelConfigView,
    history: Seq<Seq<Seq<char>>>,
    message: Seq<char>,
) -> PromptRequestView {
    PromptRequestView {
        target: ServiceTargetView {
            endpoint: config.url,
            auth: config.token,
            adapter: config.adapter_kind(),
            model_name: config.model,
        },
        turns: request_turns(history, message),
    }
}

/// How a request ended, as a mathematical value.
pub enum ChatOutcomeView {
    Text(Seq<char>),
    NoText,
    Failed(Seq<char>),
}

/// How a request ended: with an answer that holds text, with an answer that
/// holds none, or with a failure and its message.
#[derive(Clone, Debug, PartialEq, Eq)]
pub enum ChatOutcome {
    Text(String),
    NoText,
    Failed(String),
}

impl View for ChatOutcome {
    type V = ChatOutcomeView;

    open spec fn view(&self) -> ChatOutcomeView {
        match self {
            ChatOutcome::Text(text) => ChatOutcomeView::Text(text@),
            ChatOutcome::NoText => ChatOutcomeView::NoText,
            ChatOutcome::Failed(message) => ChatOutcomeView::Failed(message@),
        }
    }
}

/// The text that a script gets for an outcome: the answer's text, `No
/// response` where the answer holds none, `Error: ` and the message where
/// the request failed.
pub open spec fn reply_text(outcome: ChatOutcomeView) -> Seq<char> {
    match outcome {
        ChatOutcomeView::Text(text) => text,
        ChatOutcomeView::NoText => "No response"@,
        ChatOutcomeView::Failed(message) => "Error: "@ + message,
    }
}

/// Turns that come from two histories, one after the other, are the turns
/// of the first followed by the turns of the second.
pub proof fn lemma_translate_concat(first: Seq<Seq<Seq<char>>>, second: Seq<Seq<Seq<char>>>)
    ensures
        translate(first + second) == translate(first) + translate(second),
    decreases second.len(),
{
    if second.len() == 0 {
        assert(first + second =~= first);
        assert(translate(first) + translate(second) =~= translate(first));
    } else {
        lemma_translate_concat(first, second.drop_last());
        assert((first + second).drop_last() =~= first + second.drop_last());
        assert((first + second).last() == second.last());
        assert(translate(first + second) =~= translate(first) + translate(second));
    }
}

/// The turns of a history of one entry.
pub proof fn lemma_translate_single(entry: Seq<Seq<char>>)
    ensures
        translate(seq![entry]) == match turn_of(entry) {
            Some(turn) => seq![turn],
            None => Seq::empty(),
        },
{
    Seq::lemma_filter_map_singleton(entry, turn_fn());
}

/// An entry with fewer than two elements is left out of the request,
/// wherever in the history it stands.
pub proof fn lemma_short_entry_is_dropped(
    before: Seq<Seq<Seq<char>>>,
    entry: Seq<Seq<char>>,
    after: Seq<Seq<Seq<char>>>,
    message: Seq<char>,
)
    requires
        entry.len() < 2,
    ensures
        request_turns(before + seq![entry] + after, message) == request_turns(
            before + after,
            message,
        ),
{
    lemma_entry_in_context(before, entry, after);
    lemma_translate_concat(before, after);
    assert(translate(before) + Seq::<TurnView>::empty() + translate(after) =~= translate(before)
        + translate(after));
}

/// An entry of two or more elements whose role is `user`, `assistant` or
/// `system` becomes a turn with that role and the entry's second element as
/// content, at the entry's place among the turns.
pub proof fn lemma_known_role_is_kept(
    before: Seq<Seq<Seq<char>>>,
    entry: Seq<Seq<char>>,
    after: Seq<Seq<Seq<char>>>,
    role: Role,
)
    requires
        entry.len() >= 2,
        known_role(entry[0]) == Some(role),
    ensures
        translate(before + seq![entry] + after) == translate(before) + seq![
            TurnView { role, content: entry[1] },
        ] + translate(after),
{
    lemma_entry_in_context(before, entry, after);
}

/// An entry whose role is none of `user`, `assistant`, `system` is left out
/// of the request, wherever in the history it stands.
pub proof fn lemma_unknown_role_is_dropped(
    before: Seq<Seq<Seq<char>>>,
    entry: Seq<Seq<char>>,
    after: Seq<Seq<Seq<char>>>,
)
    requires
        entry.len() >= 2,
        entry[0] != "user"@,
        entry[0] != "assistant"@,
        entry[0] != "system"@,
    ensures
        translate(before + seq![entry] + after) == translate(before) + translate(after),
{
    lemma_entry_in_context(before, entry, after);
    assert(translate(before) + Seq::<TurnView>::empty() + translate(after) =~= translate(before)
        + translate(after));
}

proof fn lemma_entry_in_context(
    before: Seq<Seq<Seq<char>>>,
    entry: Seq<Seq<char>>,
    after: Seq<Seq<Seq<char>>>,
)
    ensures
        translate(before + seq![entry] + after) == translate(before) + (match turn_of(entry) {
            Some(turn) => seq![turn],
            None => Seq::empty(),
        }) + translate(after),
{
    lemma_translate_concat(before + seq![entry], after);
    lemma_translate_concat(before, seq![entry]);
    lemma_translate_single(entry);
}

/// A request holds one turn for each entry that stands for a turn, and one
/// more for the new message.
pub proof fn lemma_request_turn_count(history: Seq<Seq<Seq<char>>>, message: Seq<char>)
    ensures
        request_turns(history, message).len() == valid_entries(history) + 1,
        request_turns(history, message).last() == (TurnView {
            role: Role::User,
            content: message,
        }),
{
    lemma_translate_len(history);
}

proof fn lemma_translate_len(history: Seq<Seq<Seq<char>>>)
    ensures
        translate(history).len() == valid_entries(history),
    decreases history.len(),
{
    reveal(Seq::filter);
    if history.len() > 0 {
        lemma_translate_len(history.drop_last());
    }
}

/// The role that `s` names, if it names one.
pub fn role_from_string(s: &str) -> (role: Option<Role>)
    ensures
        role == known_role(s@),
{
    if same_text(s, "user") {
        Some(Role::User)
    } else if same_text(s, "assistant") {
        Some(Role::Assistant)
    } else if same_text(s, "system") {
        Some(Role::System)
    } else {
        None
    }
}

/// The turn that a history entry stands for, if it stands for one.
pub fn turn_from_entry(entry: &Vec<String>) -> (turn: Option<ConversationTurn>)
    ensures
        match turn {
            Some(t) => turn_of(entry.deep_view()) == Some(t@),
            None => turn_of(entry.deep_view()) is None,
        },
{
    if entry.len() >= 2 {
        assert(entry.deep_view()[0] == entry[0]@);
        assert(entry.deep_view()[1] == entry[1]@);
        match role_from_string(entry[0].as_str()) {
            Some(role) => Some(ConversationTurn { role, content: entry[1].clone() }),
            None => None,
        }
    } else {
        None
    }
}

/// The turns of a request: one for each history entry that stands for a
/// turn, in the history's order, and last the new message as a turn of the
/// user.
pub fn build_messages(
    history: &Vec<Vec<String>>,
    user_prompt: String,
) -> (turns: Vec<ConversationTurn>)
    ensures
        turns.deep_view() == request_turns(history.deep_view(), user_prompt@),
        turns.len() == valid_entries(history.deep_view()) + 1,
{
    let ghost entries = history.deep_view();
    let mut turns: Vec<ConversationTurn> = Vec::new();
    let n: usize = history.len();
    let mut i: usize = 0;
    assert(entries.take(0) =~= Seq::empty());
    while i < n
        invariant
            i <= n,
            n == history@.len(),
            entries == history.deep_view(),
            turns.deep_view() =~= translate(entries.take(i as int)),
        decreases n - i,
    {
        let ghost shown = turns.deep_view();
        proof {
            entries.lemma_filter_map_take_succ(turn_fn(), i as int);
            assert(entries[i as int] == history[i as int].deep_view());
        }
        match turn_from_entry(&history[i]) {
            Some(turn) => {
                let ghost added = turn@;
                turns.push(turn);
                assert(turns.deep_view() =~= shown + seq![added]);
            },
            None => {
                assert(shown + Seq::<TurnView>::empty() =~= shown);
            },
        }
        i += 1;
    }
    assert(entries.take(n as int) =~= entries);
    let ghost shown = turns.deep_view();
    let last = ConversationTurn { role: Role::User, content: user_prompt };
    turns.push(last);
    assert(turns.deep_view() =~= shown.push(last@));
    proof {
        lemma_request_turn_count(entries, user_prompt@);
    }
    turns
}

/// The request that a prompt makes under `config`. The configuration is
/// read once and copied; it is not changed.
pub fn prepare_prompt(
    config: &ModelConfig,
    history: &Vec<Vec<String>>,
    user_prompt: String,
) -> (request: PromptRequest)
    ensures
        request@ == planned_request(config@, history.deep_view(), user_prompt@),
{
    let snapshot = config.snapshot();
    let adapter = adapter_from_string(snapshot.adapter().as_str());
    let target = ServiceTarget {
        endpoint: snapshot.url().clone(),
        auth: snapshot.token().clone(),
        adapter,
        model_name: snapshot.model().clone(),
    };
    let turns = build_messages(history, user_prompt);
    PromptRequest { target, turns }
}

/// The text that a script gets for `outcome`. A failure never leaves this
/// function as anything but text: it becomes `Error: ` and the message.
pub fn render_reply(outcome: ChatOutcome) -> (reply: String)
    ensures
        reply@ == reply_text(outcome@),
        outcome is Failed ==> starts_with(reply@, "Error: "@),
{
    match outcome {
        ChatOutcome::Text(text) => text,
        ChatOutcome::NoText => String::from_str("No response"),
        ChatOutcome::Failed(message) => {
            let mut reply = String::from_str("Error: ");
            reply.append(message.as_str());
            assert(reply@.take("Error: "@.len() as int) =~= "Error: "@);
            reply
        },
    }
}

/// Asks the model: makes the request for `history` and `user_prompt` under
/// `config`, hands it to `send` once, and returns the text for what `send`
/// answers. `send` is the one place where the service is reached; whatever
/// it answers, the caller gets text. The configuration is not changed, and
/// nothing is tried twice.
pub fn prompt<F>(
    config: &ModelConfig,
    history: Vec<Vec<String>>,
    user_prompt: String,
    send: F,
) -> (reply: String) where F: FnOnce(PromptRequest) -> ChatOutcome
    requires
        forall|request: PromptRequest|
            request@ == planned_request(config@, history.deep_view(), user_prompt@)
                ==> call_requires(send, (request,)),
    ensures
        exists|request: PromptRequest, outcome: ChatOutcome|
            {
                &&& request@ == planned_request(config@, history.deep_view(), user_prompt@)
                &&& #[trigger] call_ensures(send, (request,), outcome)
                &&& reply@ == reply_text(outcome@)
            },
{
    let request = prepare_prompt(config, &history, user_prompt);
    let ghost handed = request;
    let outcome = send(request);
    let ghost answered = outcome;
    let reply = render_reply(outcome);
    assert(call_ensures(send, (handed,), answered));
    reply
}

} // verus!
