//! The reply text buffer of the Nexus daemon.
//!
//! Each reply position produces one top-level text expression. Successive
//! expressions are separated by `\n` so the client sees one self-delimited
//! expression per line. A handshake reply never reaches the user-visible
//! stream: meeting one here is a daemon protocol error. A daemon-side error
//! is reported under a stable code of its own.
use vstd::prelude::*;

verus! {

/// The daemon-side errors the renderer reports, by kind.
#[derive(Clone, Copy, Debug, PartialEq, Eq)]
pub enum Error {
    Codec,
    VerbNotInM0Scope,
    Io,
    Frame,
    FrameTooLarge,
    HandshakeRejected,
    HandshakePostReplyShape { got: &'static str },
    ActorCall,
    ActorSpawn,
}

/// A reply as it reaches the renderer: the text expression the codec
/// produced for a user-visible reply, or one of the two handshake replies,
/// which have no user-visible text.
#[derive(Clone, Debug, PartialEq, Eq)]
pub enum RenderedReply {
    Outcome(String),
    Outcomes(String),
    Records(String),
    HandshakeAccepted,
    HandshakeRejected,
}

/// The text accumulated so far, one expression per line.
pub struct Renderer {
    output: String,
}

impl View for Renderer {
    type V = Seq<char>;

    closed spec fn view(&self) -> Seq<char> {
        self.output@
    }
}

/// The text after `expression` is appended to `text`: a `\n` separates it
/// from whatever came before.
pub open spec fn appended(text: Seq<char>, expression: Seq<char>) -> Seq<char> {
    if text.len() == 0 {
        expression
    } else {
        text + seq!['\n'] + expression
    }
}

/// The text of a reply, or `None` for a handshake reply.
pub open spec fn reply_text(reply: RenderedReply) -> Option<Seq<char>> {
    match reply {
        RenderedReply::Outcome(text) => Some(text@),
        RenderedReply::Outcomes(text) => Some(text@),
        RenderedReply::Records(text) => Some(text@),
        _ => None,
    }
}

/// What rendering `reply` answers: a handshake reply is a protocol error
/// that names which handshake reply it was.
pub open spec fn reply_outcome(reply: RenderedReply) -> Result<(), Error> {
    match reply {
        RenderedReply::HandshakeAccepted => Err(Error::HandshakePostReplyShape { got: "HandshakeAccepted" }),
        RenderedReply::HandshakeRejected => Err(Error::HandshakePostReplyShape { got: "HandshakeRejected" }),
        _ => Ok(()),
    }
}

/// The text after rendering `reply` onto `text`: the reply's expression is
/// appended, and a handshake reply leaves the text as it was.
pub open spec fn reply_rendered(text: Seq<char>, reply: RenderedReply) -> Seq<char> {
    match reply_text(reply) {
        Some(expression) => appended(text, expression),
        None => text,
    }
}

/// The stable code under which an error is reported.
pub open spec fn error_code(error: Error) -> Seq<char> {
    match error {
        Error::Codec => "E0001"@,
        Error::VerbNotInM0Scope => "E0099"@,
        Error::Io => "E0010"@,
        Error::Frame => "E0011"@,
        Error::FrameTooLarge => "E0012"@,
        Error::HandshakeRejected => "E0020"@,
        Error::HandshakePostReplyShape { .. } => "E0021"@,
        Error::ActorCall => "E0030"@,
        Error::ActorSpawn => "E0031"@,
    }
}

impl Default for Renderer {
    fn default() -> (renderer: Self)
        ensures
            renderer@ == Seq::<char>::empty(),
    {
        Self::new()
    }
}

impl Renderer {
    pub fn new() -> (renderer: Self)
        ensures
            renderer@ == Seq::<char>::empty(),
    {
        Self { output: String::new() }
    }

    /// Append one rendered top-level expression to the buffer, after a `\n`
    /// separator unless it is the first.
    pub fn append_expression(&mut self, expression: &str)
        ensures
            final(self)@ == appended(old(self)@, expression@),
    {
        if !self.output.as_str().is_empty() {
            proof {
                reveal_strlit("\n");
            }
            self.output.append("\n");
        }
        self.output.append(expression);
    }

    /// Append the rendered text of `reply` to the buffer. A handshake reply
    /// is refused and leaves the buffer as it was.
    pub fn render_reply(&mut self, reply: &RenderedReply) -> (outcome: Result<(), Error>)
        ensures
            outcome == reply_outcome(*reply),
            final(self)@ == reply_rendered(old(self)@, *reply),
            reply matches RenderedReply::Outcome(text) ==> final(self)@ == appended(old(self)@, text@),
            reply matches RenderedReply::Outcomes(text) ==> final(self)@ == appended(old(self)@, text@),
            reply matches RenderedReply::Records(text) ==> final(self)@ == appended(old(self)@, text@),
            reply is HandshakeAccepted || reply is HandshakeRejected ==> final(self)@ == old(self)@,
    {
        match reply {
            RenderedReply::Outcome(text) => {
                self.append_expression(text.as_str());
                Ok(())
            },
            RenderedReply::Outcomes(text) => {
                self.append_expression(text.as_str());
                Ok(())
            },
            RenderedReply::Records(text) => {
                self.append_expression(text.as_str());
                Ok(())
            },
            RenderedReply::HandshakeAccepted => Err(Error::HandshakePostReplyShape { got: "HandshakeAccepted" }),
            RenderedReply::HandshakeRejected => Err(Error::HandshakePostReplyShape { got: "HandshakeRejected" }),
        }
    }

    /// Consume the renderer and return the accumulated text.
    pub fn into_text(self) -> (text: String)
        ensures
            text@ == self@,
    {
        self.output
    }

    /// The stable code of a daemon-side error, reported before the request
    /// can reach the downstream component.
    pub fn local_error_code(error: &Error) -> (code: &'static str)
        ensures
            code@ == error_code(*error),
    {
        match error {
            Error::Codec => "E0001",
            Error::VerbNotInM0Scope => "E0099",
            Error::Io => "E0010",
            Error::Frame => "E0011",
            Error::FrameTooLarge => "E0012",
            Error::HandshakeRejected => "E0020",
            Error::HandshakePostReplyShape { .. } => "E0021",
            Error::ActorCall => "E0030",
            Error::ActorSpawn => "E0031",
        }
    }
}

/// The text after a run of expressions is appended, in order, to an empty
/// buffer.
pub open spec fn rendered(expressions: Seq<Seq<char>>) -> Seq<char>
    decreases expressions.len(),
{
    if expressions.len() == 0 {
        Seq::empty()
    } else {
        appended(rendered(expressions.drop_last()), expressions.last())
    }
}

/// The expressions joined by `\n`, one per line.
pub open spec fn lines_joined(expressions: Seq<Seq<char>>) -> Seq<char>
    decreases expressions.len(),
{
    if expressions.len() == 0 {
        Seq::empty()
    } else if expressions.len() == 1 {
        expressions[0]
    } else {
        lines_joined(expressions.drop_last()) + seq!['\n'] + expressions.last()
    }
}

/// Successive replies come out one per line: appending non-empty expressions
/// in turn to a fresh renderer gives exactly those expressions joined by
/// `\n`. (An empty first expression is the exception: the next one then
/// finds the buffer empty and is not separated from it.)
pub proof fn lemma_expressions_are_line_separated(expressions: Seq<Seq<char>>)
    requires
        forall|i: int| 0 <= i < expressions.len() ==> #[trigger] expressions[i].len() > 0,
    ensures
        rendered(expressions) == lines_joined(expressions),
        expressions.len() > 0 ==> rendered(expressions).len() > 0,
    decreases expressions.len(),
{
    if expressions.len() > 0 {
        let prefix = expressions.drop_last();
        assert forall|i: int| 0 <= i < prefix.len() implies #[trigger] prefix[i].len() > 0 by {
            assert(prefix[i] == expressions[i]);
        }
        lemma_expressions_are_line_separated(prefix);
        assert(expressions.last() == expressions[expressions.len() - 1]);
        if expressions.len() == 1 {
            assert(prefix.len() == 0);
        }
    }
}

/// Whether two errors are of the same kind.
pub open spec fn same_kind(first: Error, second: Error) -> bool {
    &&& (first is Codec <==> second is Codec)
    &&& (first is VerbNotInM0Scope <==> second is VerbNotInM0Scope)
    &&& (first is Io <==> second is Io)
    &&& (first is Frame <==> second is Frame)
    &&& (first is FrameTooLarge <==> second is FrameTooLarge)
    &&& (first is HandshakeRejected <==> second is HandshakeRejected)
    &&& (first is HandshakePostReplyShape <==> second is HandshakePostReplyShape)
    &&& (first is ActorCall <==> second is ActorCall)
    &&& (first is ActorSpawn <==> second is ActorSpawn)
}

/// Every kind of error has a code of its own: two errors share a code
/// exactly when they are of the same kind.
pub proof fn lemma_error_codes_tell_kinds_apart(first: Error, second: Error)
    ensures
        error_code(first) == error_code(second) <==> same_kind(first, second),
{
    reveal_strlit("E0001");
    reveal_strlit("E0099");
    reveal_strlit("E0010");
    reveal_strlit("E0011");
    reveal_strlit("E0012");
    reveal_strlit("E0020");
    reveal_strlit("E0021");
    reveal_strlit("E0030");
    reveal_strlit("E0031");
    if error_code(first) == error_code(second) {
        assert(error_code(first)[3] == error_code(second)[3]);
        assert(error_code(first)[4] == error_code(second)[4]);
    }
}

/// One call on a renderer, as a run of calls records it.
pub enum RenderCall {
    /// `render_reply` with this reply.
    Reply(RenderedReply),
    /// `append_expression` with this expression.
    Expression(String),
}

/// The text after one call.
pub open spec fn call_rendered(text: Seq<char>, call: RenderCall) -> Seq<char> {
    match call {
        RenderCall::Reply(reply) => reply_rendered(text, reply),
        RenderCall::Expression(expression) => appended(text, expression@),
    }
}

/// The expression a call appends, or `None` for a refused handshake reply.
pub open spec fn call_text(call: RenderCall) -> Option<Seq<char>> {
    match call {
        RenderCall::Reply(reply) => reply_text(reply),
        RenderCall::Expression(expression) => Some(expression@),
    }
}

/// The text of a fresh renderer after a run of calls, in order.
pub open spec fn calls_rendered(calls: Seq<RenderCall>) -> Seq<char>
    decreases calls.len(),
{
    if calls.len() == 0 {
        Seq::empty()
    } else {
        call_rendered(calls_rendered(calls.drop_last()), calls.last())
    }
}

/// The expressions a run of calls appends, in order: one for each call that
/// succeeds, none for a refused handshake reply.
pub open spec fn calls_texts(calls: Seq<RenderCall>) -> Seq<Seq<char>>
    decreases calls.len(),
{
    if calls.len() == 0 {
        Seq::empty()
    } else {
        match call_text(calls.last()) {
            Some(expression) => calls_texts(calls.drop_last()).push(expression),
            None => calls_texts(calls.drop_last()),
        }
    }
}

proof fn lemma_calls_rendered_is_rendered(calls: Seq<RenderCall>)
    ensures
        calls_rendered(calls) == rendered(calls_texts(calls)),
        (forall|i: int| 0 <= i < calls.len() && #[trigger] call_text(calls[i]) is Some ==> call_text(calls[i])->0.len() > 0)
            ==> (forall|j: int| 0 <= j < calls_texts(calls).len() ==> #[trigger] calls_texts(calls)[j].len() > 0),
    decreases calls.len(),
{
    if calls.len() > 0 {
        let prefix = calls.drop_last();
        lemma_calls_rendered_is_rendered(prefix);
        if forall|i: int| 0 <= i < calls.len() && #[trigger] call_text(calls[i]) is Some ==> call_text(calls[i])->0.len() > 0 {
            assert forall|i: int| 0 <= i < prefix.len() && #[trigger] call_text(prefix[i]) is Some implies call_text(prefix[i])->0.len() > 0 by {
                assert(prefix[i] == calls[i]);
            }
            assert(call_text(calls[calls.len() - 1]) is Some ==> call_text(calls[calls.len() - 1])->0.len() > 0);
        }
        match call_text(calls.last()) {
            Some(expression) => {
                let texts = calls_texts(calls);
                assert(texts.drop_last() =~= calls_texts(prefix));
                assert(texts.last() == expression);
            },
            None => {},
        }
    }
}

/// The text a fresh renderer holds after any run of `render_reply` and
/// `append_expression` calls is the expressions of the calls that succeeded,
/// in call order, joined by exactly one `\n`, with no leading or trailing
/// separator. It holds where every appended expression is non-empty: an
/// empty first expression leaves the next one unseparated.
pub proof fn lemma_successful_calls_one_per_line(calls: Seq<RenderCall>)
    requires
        forall|i: int| 0 <= i < calls.len() && #[trigger] call_text(calls[i]) is Some ==> call_text(calls[i])->0.len() > 0,
    ensures
        calls_rendered(calls) == lines_joined(calls_texts(calls)),
{
    lemma_calls_rendered_is_rendered(calls);
    lemma_expressions_are_line_separated(calls_texts(calls));
}

/// Rendering a user-visible reply appends that reply's own text, whatever the
/// text: an outcome, a list of outcomes, or records come out exactly as they
/// were rendered, after a `\n` unless the buffer was empty. A handshake
/// reply appends nothing.
pub proof fn lemma_reply_appends_its_own_text(buffer: Seq<char>, text: String)
    ensures
        reply_text(RenderedReply::Outcome(text)) == Some(text@),
        reply_text(RenderedReply::Outcomes(text)) == Some(text@),
        reply_text(RenderedReply::Records(text)) == Some(text@),
        reply_rendered(buffer, RenderedReply::Outcome(text)) == appended(buffer, text@),
        reply_rendered(buffer, RenderedReply::Outcomes(text)) == appended(buffer, text@),
        reply_rendered(buffer, RenderedReply::Records(text)) == appended(buffer, text@),
        reply_outcome(RenderedReply::Outcome(text)) == Ok::<(), Error>(()),
        reply_outcome(RenderedReply::Outcomes(text)) == Ok::<(), Error>(()),
        reply_outcome(RenderedReply::Records(text)) == Ok::<(), Error>(()),
        reply_outcome(RenderedReply::HandshakeAccepted) == Err::<(), Error>(
            Error::HandshakePostReplyShape { got: "HandshakeAccepted" },
        ),
        reply_outcome(RenderedReply::HandshakeRejected) == Err::<(), Error>(
            Error::HandshakePostReplyShape { got: "HandshakeRejected" },
        ),
        reply_rendered(buffer, RenderedReply::HandshakeAccepted) == buffer,
        reply_rendered(buffer, RenderedReply::HandshakeRejected) == buffer,
        buffer.len() == 0 ==> appended(buffer, text@) == text@,
        buffer.len() > 0 ==> appended(buffer, text@) == buffer + seq!['\n'] + text@,
{
}

/// The code of every kind of daemon-side error: codec failures are `E0001`,
/// verbs outside scope `E0099`, transport failures `E0010` to `E0012`,
/// handshake failures `E0020` and `E0021`, actor failures `E0030` and `E0031`.
pub proof fn lemma_error_code_table(got: &'static str)
    ensures
        error_code(Error::Codec) == "E0001"@,
        error_code(Error::VerbNotInM0Scope) == "E0099"@,
        error_code(Error::Io) == "E0010"@,
        error_code(Error::Frame) == "E0011"@,
        error_code(Error::FrameTooLarge) == "E0012"@,
        error_code(Error::HandshakeRejected) == "E0020"@,
        error_code(Error::HandshakePostReplyShape { got }) == "E0021"@,
        error_code(Error::ActorCall) == "E0030"@,
        error_code(Error::ActorSpawn) == "E0031"@,
{
}

} // verus!
