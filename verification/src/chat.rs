//! The chat-token stream: request message assembly and the decoder that
//! turns the engine's NDJSON chat response into ordered stream tokens.

use vstd::prelude::*;
use vstd::string::StringExecFns;
use crate::decode::{scan_lines, StreamBuffer};

verus! {

/// One message of a conversation: a role ("user", "assistant" or "system")
/// and its text.
#[derive(Debug)]
pub struct ChatMessage {
    pub role: String,
    pub content: String,
}

/// The mathematical value of a [`ChatMessage`].
pub struct ChatMessageView {
    pub role: Seq<char>,
    pub content: Seq<char>,
}

impl View for ChatMessage {
    type V = ChatMessageView;

    open spec fn view(&self) -> ChatMessageView {
        ChatMessageView { role: self.role@, content: self.content@ }
    }
}

impl DeepView for ChatMessage {
    type V = ChatMessageView;

    open spec fn deep_view(&self) -> ChatMessageView {
        self.view()
    }
}

impl Clone for ChatMessage {
    /// Clones the message, keeping role and content.
    fn clone(&self) -> (r: Self)
        ensures
            r@ == self@,
    {
        ChatMessage { role: self.role.clone(), content: self.content.clone() }
    }
}

/// One decoded token of a chat stream, tagged with the conversation it
/// belongs to. `done` marks the terminal token.
#[derive(Debug)]
pub struct StreamToken {
    pub conversation_id: String,
    pub content: String,
    pub done: bool,
}

/// The mathematical value of a [`StreamToken`].
pub struct StreamTokenView {
    pub conversation_id: Seq<char>,
    pub content: Seq<char>,
    pub done: bool,
}

impl View for StreamToken {
    type V = StreamTokenView;

    open spec fn view(&self) -> StreamTokenView {
        StreamTokenView {
            conversation_id: self.conversation_id@,
            content: self.content@,
            done: self.done,
        }
    }
}

impl DeepView for StreamToken {
    type V = StreamTokenView;

    open spec fn deep_view(&self) -> StreamTokenView {
        self.view()
    }
}

/// What parsing one NDJSON record of the chat-token schema yields: the
/// message content and the done flag, each absent when the record does not
/// carry it, or nothing at all when the record is not a chat record. The
/// result depends on the record's bytes alone.
pub uninterp spec fn chat_parse(line: Seq<u8>) -> Option<(Option<Seq<char>>, Option<bool>)>;

/// Relies on serde_json::from_slice / serde_json::Value: parses one NDJSON
/// record of the chat-token schema `{"message":{"content":...},"done":...}`,
/// leaving absent fields absent; yields nothing when the record is not a
/// JSON object.
#[verifier::external_body]
fn parse_chat_line(line: &Vec<u8>) -> (r: Option<(Option<String>, Option<bool>)>)
    ensures
        r matches Some(p) ==> chat_parse(line@) == Some((p.0.deep_view(), p.1)),
        r is None ==> chat_parse(line@) is None,
{
    let v: serde_json::Value = match serde_json::from_slice(line) {
        Ok(v) => v,
        Err(_) => return None,
    };
    if !v.is_object() {
        return None;
    }
    let content = v
        .get("message")
        .and_then(|m| m.get("content"))
        .and_then(|c| c.as_str())
        .map(|s| s.to_string());
    let done = v.get("done").and_then(|d| d.as_bool());
    Some((content, done))
}

/// The token a parsed chat record stands for: a missing content is empty,
/// a missing flag is not done, and `force_done` marks the token terminal
/// regardless of the parsed flag.
pub open spec fn chat_token_of(
    conv: Seq<char>,
    p: (Option<Seq<char>>, Option<bool>),
    force_done: bool,
) -> StreamTokenView {
    StreamTokenView {
        conversation_id: conv,
        content: match p.0 {
            Some(c) => c,
            None => Seq::<char>::empty(),
        },
        done: force_done || match p.1 {
            Some(d) => d,
            None => false,
        },
    }
}

/// The tokens that the chat schema yields for `lines`, in order: one token
/// per record that parses, none for a record that does not
/// (skip-on-parse-error).
pub open spec fn chat_events(conv: Seq<char>, lines: Seq<Seq<u8>>) -> Seq<StreamTokenView>
    decreases lines.len(),
{
    if lines.len() == 0 {
        Seq::<StreamTokenView>::empty()
    } else {
        chat_events(conv, lines.drop_last()) + match chat_parse(lines.last()) {
            Some(p) => seq![chat_token_of(conv, p, false)],
            None => Seq::<StreamTokenView>::empty(),
        }
    }
}

/// The concatenated contents of a token sequence.
pub open spec fn contents_of(evs: Seq<StreamTokenView>) -> Seq<char>
    decreases evs.len(),
{
    if evs.len() == 0 {
        Seq::<char>::empty()
    } else {
        contents_of(evs.drop_last()) + evs.last().content
    }
}

/// Malformed-line resilience: a record that does not parse contributes no
/// token; the stream yields exactly the tokens of the records around it,
/// in order (skip-on-parse-error).
pub proof fn lemma_skip_on_parse_error(
    conv: Seq<char>,
    before: Seq<Seq<u8>>,
    bad: Seq<u8>,
    after: Seq<Seq<u8>>,
)
    requires
        chat_parse(bad) is None,
    ensures
        chat_events(conv, before + seq![bad] + after) == chat_events(conv, before + after),
    decreases after.len(),
{
    if after.len() == 0 {
        assert(before + seq![bad] + after =~= before.push(bad));
        assert((before.push(bad)).drop_last() =~= before);
        assert(before + after =~= before);
        assert(chat_events(conv, before.push(bad)) =~= chat_events(conv, before));
    } else {
        lemma_skip_on_parse_error(conv, before, bad, after.drop_last());
        let l = after.last();
        assert(before + seq![bad] + after =~= (before + seq![bad] + after.drop_last()).push(l));
        assert(before + after =~= (before + after.drop_last()).push(l));
        assert(((before + seq![bad] + after.drop_last()).push(l)).drop_last() =~= before
            + seq![bad] + after.drop_last());
        assert(((before + after.drop_last()).push(l)).drop_last() =~= before + after.drop_last());
    }
}

/// The token forced onto the trailing partial record at end of stream, if
/// that record parses: its done flag is always set, so that a consumer
/// observes a terminal signal.
pub open spec fn chat_tail(conv: Seq<char>, rem: Seq<u8>) -> Seq<StreamTokenView> {
    if rem.len() > 0 {
        match chat_parse(rem) {
            Some(p) => seq![chat_token_of(conv, p, true)],
            None => Seq::<StreamTokenView>::empty(),
        }
    } else {
        Seq::<StreamTokenView>::empty()
    }
}

/// Decodes one chat response stream: buffers arbitrarily chunked bytes,
/// splits them into NDJSON records, and turns each record that parses into
/// a [`StreamToken`], in record order.
pub struct ChatDecoder {
    buffer: StreamBuffer,
    conversation_id: String,
    assembled: String,
    events: Ghost<Seq<StreamTokenView>>,
}

impl ChatDecoder {
    /// The conversation this stream belongs to.
    pub closed spec fn conv(self) -> Seq<char> {
        self.conversation_id@
    }

    /// All bytes this decoder was ever fed, in arrival order.
    pub closed spec fn fed(self) -> Seq<u8> {
        self.buffer.fed()
    }

    /// All tokens emitted so far.
    pub closed spec fn events(self) -> Seq<StreamTokenView> {
        self.events@
    }

    pub closed spec fn wf(self) -> bool {
        &&& self.buffer.wf()
        &&& self.events@ == chat_events(self.conversation_id@, scan_lines(self.buffer.fed()).0)
        &&& self.assembled@ == contents_of(self.events@)
    }

    /// Creates a decoder for a fresh chat stream.
    pub fn new(conversation_id: String) -> (r: Self)
        ensures
            r.wf(),
            r.conv() == conversation_id@,
            r.fed() == Seq::<u8>::empty(),
            r.events() == Seq::<StreamTokenView>::empty(),
    {
        ChatDecoder {
            buffer: StreamBuffer::new(),
            conversation_id,
            assembled: String::new(),
            events: Ghost(Seq::empty()),
        }
    }

    /// Feeds one arrived chunk and returns the tokens it completed, in
    /// order. The tokens emitted over the whole stream so far are exactly
    /// those of the records of the concatenation of all bytes fed, however
    /// that payload was chunked.
    pub fn feed(&mut self, chunk: &[u8]) -> (r: Vec<StreamToken>)
        requires
            old(self).wf(),
        ensures
            final(self).wf(),
            final(self).conv() == old(self).conv(),
            final(self).fed() == old(self).fed() + chunk@,
            final(self).events() == old(self).events() + r.deep_view(),
            final(self).events() == chat_events(
                final(self).conv(),
                scan_lines(final(self).fed()).0,
            ),
    {
        let ghost evs0 = self.events@;
        let ghost lines0 = scan_lines(self.buffer.fed()).0;
        let lines = self.buffer.feed(chunk);
        let mut out: Vec<StreamToken> = Vec::new();
        let ghost conv = self.conversation_id@;
        proof {
            assert(lines0 + lines.deep_view().subrange(0, 0) =~= lines0);
        }
        for j in 0..lines.len()
            invariant
                self.buffer.wf(),
                self.conversation_id@ == conv,
                self.events@ == chat_events(conv, lines0 + lines.deep_view().subrange(0, j as int)),
                self.assembled@ == contents_of(self.events@),
                self.events@ == evs0 + out.deep_view(),
                self.buffer.fed() == old(self).fed() + chunk@,
                scan_lines(self.buffer.fed()).0 == lines0 + lines.deep_view(),
        {
            let ghost evs_pre = self.events@;
            let ghost out_pre = out.deep_view();
            let ghost seen = lines0 + lines.deep_view().subrange(0, j as int);
            proof {
                assert(lines@[j as int].deep_view() =~= lines@[j as int]@);
                assert((lines0 + lines.deep_view().subrange(0, j as int + 1)).drop_last() =~= seen);
                let ghost jline = lines@[j as int]@;
                assert((lines0 + lines.deep_view().subrange(0, j as int + 1)).last() == jline);
            }
            match parse_chat_line(&lines[j]) {
                Some((content_opt, done_opt)) => {
                    let content = match content_opt {
                        Option::Some(c) => c,
                        Option::None => String::new(),
                    };
                    let done = match done_opt {
                        Option::Some(d) => d,
                        Option::None => false,
                    };
                    self.assembled.append(content.as_str());
                    let tok = StreamToken {
                        conversation_id: self.conversation_id.clone(),
                        content,
                        done,
                    };
                    proof {
                        self.events@ = self.events@.push(tok@);
                        assert(self.events@ =~= chat_events(conv, lines0
                            + lines.deep_view().subrange(0, j as int + 1)));
                        assert(self.events@.drop_last() =~= evs_pre);
                        assert(self.assembled@ == contents_of(self.events@));
                    }
                    out.push(tok);
                    proof {
                        assert(out.deep_view() =~= out_pre.push(self.events@.last()));
                        assert(self.events@ =~= evs0 + out.deep_view());
                    }
                },
                None => {
                    proof {
                        assert(self.events@ =~= chat_events(conv, lines0
                            + lines.deep_view().subrange(0, j as int + 1)));
                    }
                },
            }
        }
        proof {
            assert(lines0 + lines.deep_view().subrange(0, lines@.len() as int) =~= lines0
                + lines.deep_view());
        }
        out
    }

    /// Ends the stream: if bytes remain after the last separator they are
    /// parsed as one final record whose token, if any, carries `done =
    /// true` regardless of the parsed value. Returns that final token
    /// vector and the concatenation of the contents of every token this
    /// stream yielded.
    pub fn finish(self) -> (r: (Vec<StreamToken>, String))
        requires
            self.wf(),
        ensures
            r.0.deep_view() == chat_tail(self.conv(), scan_lines(self.fed()).1),
            r.1@ == contents_of(self.events() + chat_tail(self.conv(), scan_lines(self.fed()).1)),
    {
        let ChatDecoder { buffer, conversation_id, mut assembled, events } = self;
        let ghost conv = conversation_id@;
        let ghost tail = chat_tail(conv, scan_lines(buffer.fed()).1);
        let mut out: Vec<StreamToken> = Vec::new();
        match buffer.finish() {
            Some(line) => {
                match parse_chat_line(&line) {
                    Some((content_opt, _done_opt)) => {
                        let content = match content_opt {
                            Option::Some(c) => c,
                            Option::None => String::new(),
                        };
                        assembled.append(content.as_str());
                        let tok = StreamToken { conversation_id, content, done: true };
                        out.push(tok);
                        proof {
                            assert(out.deep_view() =~= tail);
                            assert((events@ + tail).drop_last() =~= events@);
                            assert(assembled@ == contents_of(events@ + tail));
                        }
                    },
                    None => {
                        proof {
                            assert(out.deep_view() =~= tail);
                            assert(events@ + tail =~= events@);
                        }
                    },
                }
            },
            None => {
                proof {
                    assert(out.deep_view() =~= tail);
                    assert(events@ + tail =~= events@);
                }
            },
        }
        (out, assembled)
    }
}

/// The text of the system message sent ahead of the conversation: the
/// memory context and the configured system prompt, joined by a blank line
/// when both are present.
pub open spec fn system_text(memory: Seq<char>, prompt: Seq<char>) -> Seq<char> {
    if memory.len() > 0 && prompt.len() > 0 {
        memory + "\n\n"@ + prompt
    } else if memory.len() > 0 {
        memory
    } else {
        prompt
    }
}

/// The outbound message history: a system message built from the memory
/// context and the system prompt when either is nonempty, followed by the
/// conversation messages in order.
pub open spec fn outbound_messages(
    messages: Seq<ChatMessageView>,
    memory: Seq<char>,
    prompt: Seq<char>,
) -> Seq<ChatMessageView> {
    if memory.len() > 0 || prompt.len() > 0 {
        seq![ChatMessageView { role: "system"@, content: system_text(memory, prompt) }] + messages
    } else {
        messages
    }
}

/// Builds the message history sent to the engine for one chat request.
pub fn build_chat_messages(
    messages: &Vec<ChatMessage>,
    memory_context: &str,
    system_prompt: &str,
) -> (r: Vec<ChatMessage>)
    ensures
        r.deep_view() == outbound_messages(messages.deep_view(), memory_context@, system_prompt@),
{
    let mut out: Vec<ChatMessage> = Vec::new();
    if !memory_context.is_empty() || !system_prompt.is_empty() {
        let mut text = String::new();
        if !memory_context.is_empty() && !system_prompt.is_empty() {
            text.append(memory_context);
            text.append("\n\n");
            text.append(system_prompt);
        } else if !memory_context.is_empty() {
            text.append(memory_context);
        } else {
            text.append(system_prompt);
        }
        out.push(ChatMessage { role: String::from_str("system"), content: text });
    }
    let ghost head = out.deep_view();
    proof {
        assert(out.deep_view() =~= head + messages.deep_view().subrange(0, 0));
    }
    for i in 0..messages.len()
        invariant
            out.deep_view() == head + messages.deep_view().subrange(0, i as int),
    {
        let m = &messages[i];
        let ghost pre = out.deep_view();
        out.push(ChatMessage { role: m.role.clone(), content: m.content.clone() });
        proof {
            assert(out.deep_view() =~= pre.push(messages.deep_view()[i as int]));
            assert(pre.push(messages.deep_view()[i as int]) =~= head
                + messages.deep_view().subrange(0, i as int + 1));
        }
    }
    proof {
        assert(head + messages.deep_view().subrange(0, messages@.len() as int) =~= head
            + messages.deep_view());
        assert(out.deep_view() =~= outbound_messages(
            messages.deep_view(),
            memory_context@,
            system_prompt@,
        ));
    }
    out
}

} // verus!
