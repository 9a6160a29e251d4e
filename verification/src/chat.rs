use vstd::prelude::*;

use std::time::Instant;

verus! {

#[verifier::external_type_specification]
#[verifier::external_body]
pub struct ExInstant(std::time::Instant);

/// `Instant` is `Copy`: its `clone` gives back the same moment.
pub assume_specification[ <std::time::Instant as std::clone::Clone>::clone ](instant: &Instant) -> (copy: Instant)
    ensures
        copy == *instant,
;

/// `Instant::now`: the current moment. Nothing is stated of it: it is read
/// from the system clock.
#[verifier::external_body]
fn now() -> (moment: Instant) {
    Instant::now()
}

/// Events of the chat window.
#[derive(Debug, Clone)]
pub enum Message {
    /// The text in the typing box changed to the given value.
    InputChanged(String),
    /// The user asked to send what is in the typing box.
    SendMessage,
    /// A new frame is due (keeps the animation running).
    Tick(Instant),
}

/// What the caller must do after an event.
#[derive(Debug)]
pub enum Effect {
    /// Nothing.
    Nothing,
    /// Run the token classifier on this text and hand its report lines back
    /// with `App::receive_replies`.
    Analyze(String),
}

impl Effect {
    /// The text to analyze, if any.
    pub open spec fn request(&self) -> Option<Seq<char>> {
        match self {
            Effect::Nothing => None,
            Effect::Analyze(text) => Some(text@),
        }
    }
}

/// The chat log line that records a sent message.
pub open spec fn sent_line(input: Seq<char>) -> Seq<char> {
    "You: "@ + input
}

/// The greeting lines a new chat starts with.
pub open spec fn greeting() -> Seq<Seq<char>> {
    seq!["System: Welcome to the chat!"@, "System: Type a message below and press Enter."@]
}

/// The chat log after `message`, given the log and the typing box before it.
pub open spec fn history_after(history: Seq<Seq<char>>, input: Seq<char>, message: Message) -> Seq<Seq<char>> {
    match message {
        Message::SendMessage => if input.len() > 0 {
            history.push(sent_line(input))
        } else {
            history
        },
        _ => history,
    }
}

/// The typing box after `message`.
pub open spec fn input_after(input: Seq<char>, message: Message) -> Seq<char> {
    match message {
        Message::InputChanged(value) => value@,
        _ => input,
    }
}

/// The text that `message` asks to analyze: the typing box, when it is sent
/// and not empty.
pub open spec fn request_after(input: Seq<char>, message: Message) -> Option<Seq<char>> {
    match message {
        Message::SendMessage => if input.len() > 0 {
            Some(input)
        } else {
            None
        },
        _ => None,
    }
}

/// The chat log after the replies to a sent message arrived.
pub open spec fn history_with_replies(history: Seq<Seq<char>>, replies: Seq<String>) -> Seq<Seq<char>> {
    history + replies.map_values(|r: String| r@)
}

/// State of the chat window: the log of messages, the typing box and the
/// moment the window opened (which drives the animation).
pub struct App {
    pub messages: Vec<String>,
    pub input_value: String,
    pub start_time: Instant,
}

impl App {
    /// The chat log.
    pub open spec fn history(&self) -> Seq<Seq<char>> {
        self.messages@.map_values(|m: String| m@)
    }

    /// The typing box.
    pub open spec fn input(&self) -> Seq<char> {
        self.input_value@
    }

    /// A new chat window opened at `start_time`: the greeting in the log and
    /// an empty typing box.
    pub fn new(start_time: Instant) -> (app: App)
        ensures
            app.history() == greeting(),
            app.input() == Seq::<char>::empty(),
            app.start_time == start_time,
    {
        let mut messages: Vec<String> = Vec::new();
        messages.push(String::from_str("System: Welcome to the chat!"));
        messages.push(String::from_str("System: Type a message below and press Enter."));
        let app = App { messages, input_value: String::new(), start_time };
        assert(app.history() =~= greeting());
        app
    }

    /// The window title.
    pub fn title(&self) -> (title: String)
        ensures
            title@ == "Contrivance"@,
    {
        String::from_str("Contrivance")
    }

    /// Handles an event: typing replaces the box, sending a non-empty box
    /// records it in the log and asks for it to be analyzed, anything else
    /// changes nothing.
    pub fn update(&mut self, message: Message) -> (effect: Effect)
        ensures
            final(self).history() == history_after(old(self).history(), old(self).input(), message),
            final(self).input() == input_after(old(self).input(), message),
            final(self).start_time == old(self).start_time,
            effect.request() == request_after(old(self).input(), message),
    {
        match message {
            Message::InputChanged(value) => {
                self.input_value = value;
                Effect::Nothing
            },
            Message::SendMessage => {
                if !self.input_value.as_str().is_empty() {
                    let ghost before = self.history();
                    let mut line = String::from_str("You: ");
                    line.append(self.input_value.as_str());
                    self.messages.push(line);
                    assert(self.history() =~= before.push(sent_line(self.input())));
                    Effect::Analyze(self.input_value.clone())
                } else {
                    Effect::Nothing
                }
            },
            Message::Tick(_instant) => Effect::Nothing,
        }
    }

    /// Records the analyzer's report lines in the log and clears the typing
    /// box.
    pub fn receive_replies(&mut self, replies: Vec<String>)
        ensures
            final(self).history() == history_with_replies(old(self).history(), replies@),
            final(self).input() == Seq::<char>::empty(),
            final(self).start_time == old(self).start_time,
    {
        let n = replies.len();
        let ghost before = self.history();
        for i in 0..n
            invariant
                n == replies@.len(),
                self.history() == history_with_replies(before, replies@.take(i as int)),
                self.start_time == old(self).start_time,
        {
            let ghost prev = self.history();
            self.messages.push(replies[i].clone());
            assert(replies@.take(i + 1) =~= replies@.take(i as int).push(replies@[i as int]));
            assert(self.history() =~= prev.push(replies@[i as int]@));
            assert(history_with_replies(before, replies@.take(i + 1)) =~= history_with_replies(before, replies@.take(i as int)).push(replies@[i as int]@));
        }
        assert(replies@.take(n as int) =~= replies@);
        self.input_value = String::new();
    }
}

impl Default for App {
    /// A new chat window opened now.
    fn default() -> (app: App)
        ensures
            app.history() == greeting(),
            app.input() == Seq::<char>::empty(),
    {
        App::new(now())
    }
}

/// Sending a non-empty message asks for it to be analyzed, and once the
/// replies are received the log holds the sent line followed by the replies.
pub proof fn lemma_send_round(history: Seq<Seq<char>>, input: Seq<char>, replies: Seq<String>)
    requires
        input.len() > 0,
    ensures
        request_after(input, Message::SendMessage) == Some(input),
        history_with_replies(history_after(history, input, Message::SendMessage), replies)
            == history + seq![sent_line(input)] + replies.map_values(|r: String| r@),
{
    assert(history.push(sent_line(input)) =~= history + seq![sent_line(input)]);
}

/// The log only grows: no event and no reply removes or changes an earlier
/// line.
pub proof fn lemma_history_only_grows(history: Seq<Seq<char>>, input: Seq<char>, message: Message, replies: Seq<String>)
    ensures
        history.is_prefix_of(history_after(history, input, message)),
        history.is_prefix_of(history_with_replies(history, replies)),
{
    assert(history_after(history, input, message).subrange(0, history.len() as int) =~= history);
    assert(history_with_replies(history, replies).subrange(0, history.len() as int) =~= history);
}

/// An empty typing box is never sent, and events other than sending never
/// ask for an analysis.
pub proof fn lemma_only_nonempty_sends(history: Seq<Seq<char>>, input: Seq<char>, message: Message)
    ensures
        request_after(input, message) is Some <==> (message is SendMessage && input.len() > 0),
        input.len() == 0 ==> history_after(history, input, message) == history,
{
}

} // verus!

verus! {

/// A sent message is recorded as `You: ` followed by the text, and a new
/// chat starts with its two greeting lines.
pub proof fn lemma_chat_texts(input: Seq<char>)
    ensures
        sent_line(input) == seq!['Y', 'o', 'u', ':', ' '] + input,
        greeting().len() == 2,
        greeting()[0] == "System: Welcome to the chat!"@,
        greeting()[1] == "System: Type a message below and press Enter."@,
{
    reveal_strlit("You: ");
    assert("You: "@ =~= seq!['Y', 'o', 'u', ':', ' ']);
}

} // verus!
