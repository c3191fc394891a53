//! The collector of a streamed completion.
//!
//! A provider sends a completion as a stream of event frames. Each frame
//! holds lines; a line that opens with `data: ` carries either the end
//! marker `[DONE]` or a JSON document with a part of the completion. The
//! collector takes the frames in as they come and, when the stream has
//! ended, gives the completion as one response.
//!
//! The state of a collector is a `CollectorView`; what a frame does to it
//! is `apply_chunk`, and the response it comes to is `response_of`.

use crate::proxy::models::{
    Choice,
    ChoiceView,
    OpenAIContent,
    OpenAIMessage,
    OpenAIMessageView,
    OpenAIResponse,
    OpenAIResponseView,
    OpenAIUsage,
    ToolCall,
    ToolCallView,
    ToolFunction,
    call_views,
};
use crate::utils::ambient::unix_time;
use crate::utils::json::{
    Json,
    array_member,
    json_document,
    json_model,
    json_models,
    member,
    member_of,
    parse_document,
    read_array,
    read_text,
    read_unsigned,
    text_member,
    unsigned_member,
};
use crate::utils::order::{lemma_sorted_keys_unique, sorted_keys, strictly_increasing};
use crate::utils::text::{
    after_first_line,
    chars_of,
    decode_lossy,
    find_line_end,
    first_line,
    has_prefix,
    optional_text,
    same_text,
    skip_repeated_prefix,
    strip_repeated_prefix,
    texts,
    trim,
    trim_bounds,
    utf8_lossy_text,
};
use std::collections::BTreeMap;
use vstd::prelude::*;
use vstd::std_specs::cmp::OrdSpec;
use vstd::std_specs::iter::IteratorSpec;
use vstd::string::StrSliceExecFns;
use vstd::string::StringExecFns;

verus! {

/// One tool call as it is being put together from its fragments.
#[derive(Debug)]
pub struct ToolCallBuilder {
    pub id: Option<String>,
    pub call_type: Option<String>,
    pub name: String,
    pub arguments: String,
}

/// A tool call in the making, as a mathematical value.
pub struct BuilderView {
    pub id: Option<Seq<char>>,
    pub call_type: Option<Seq<char>>,
    pub name: Seq<char>,
    pub arguments: Seq<char>,
}

/// The state of a collector, as a mathematical value.
pub struct CollectorView {
    pub id: Seq<char>,
    pub model: Seq<char>,
    pub created: u64,
    pub usage: Option<OpenAIUsage>,
    pub role: Option<Seq<char>>,
    pub content: Seq<Seq<char>>,
    pub reasoning: Seq<Seq<char>>,
    pub finish_reason: Option<Seq<char>>,
    pub tool_calls: Map<u32, BuilderView>,
}

impl View for ToolCallBuilder {
    type V = BuilderView;

    open spec fn view(&self) -> BuilderView {
        BuilderView {
            id: optional_text(self.id),
            call_type: optional_text(self.call_type),
            name: self.name@,
            arguments: self.arguments@,
        }
    }
}

/// The values of a map of builders.
pub open spec fn builder_views(m: Map<u32, ToolCallBuilder>) -> Map<u32, BuilderView> {
    m.map_values(|b: ToolCallBuilder| b@)
}

/// A builder that has seen no fragment.
pub open spec fn empty_builder() -> BuilderView {
    BuilderView { id: None, call_type: None, name: Seq::empty(), arguments: Seq::empty() }
}

/// The state of a collector that has seen nothing; `created` is the time
/// that the response carries where the stream names none.
pub open spec fn initial_state(created: u64) -> CollectorView {
    CollectorView {
        id: "chatcmpl-unknown"@,
        model: "unknown"@,
        created,
        usage: None,
        role: None,
        content: Seq::empty(),
        reasoning: Seq::empty(),
        finish_reason: None,
        tool_calls: Map::empty(),
    }
}

/// `old`, unless `new` holds a value.
pub open spec fn overwritten<A>(old: A, new: Option<A>) -> A {
    match new {
        Some(v) => v,
        None => old,
    }
}

/// `new`, where it holds a value, else `old`.
pub open spec fn replaced<A>(old: Option<A>, new: Option<A>) -> Option<A> {
    match new {
        Some(_) => new,
        None => old,
    }
}

/// `old`, where it holds a value, else `new`.
pub open spec fn first_written<A>(old: Option<A>, new: Option<A>) -> Option<A> {
    match old {
        Some(_) => old,
        None => new,
    }
}

/// `parts` with `new` appended, where `new` holds a value.
pub open spec fn appended(parts: Seq<Seq<char>>, new: Option<Seq<char>>) -> Seq<Seq<char>> {
    match new {
        Some(v) => parts.push(v),
        None => parts,
    }
}

/// `text` followed by `new`, where `new` holds a value.
pub open spec fn extended(text: Seq<char>, new: Option<Seq<char>>) -> Seq<char> {
    match new {
        Some(v) => text + v,
        None => text,
    }
}

/// The index that a tool-call fragment carries, taken to 32 bits.
pub open spec fn fragment_index(fragment: Json) -> Option<u32> {
    match unsigned_member(fragment, "index"@) {
        Some(v) => Some((v % 0x1_0000_0000) as u32),
        None => None,
    }
}

/// The text of the member `key` of the fragment's function.
pub open spec fn function_text(fragment: Json, key: Seq<char>) -> Option<Seq<char>> {
    match member_of(fragment, "function"@) {
        Some(function) => text_member(function, key),
        None => None,
    }
}

/// A builder after a fragment has been merged into it: identifier and type
/// are taken where the builder has none yet, name and arguments are
/// appended.
pub open spec fn merged(b: BuilderView, fragment: Json) -> BuilderView {
    BuilderView {
        id: first_written(b.id, text_member(fragment, "id"@)),
        call_type: first_written(b.call_type, text_member(fragment, "type"@)),
        name: extended(b.name, function_text(fragment, "name"@)),
        arguments: extended(b.arguments, function_text(fragment, "arguments"@)),
    }
}

/// The builders after one fragment: a fragment with an index is merged
/// into the builder of that index, which is made where there is none; a
/// fragment without an index is passed over.
pub open spec fn with_fragment(calls: Map<u32, BuilderView>, fragment: Json) -> Map<u32, BuilderView> {
    match fragment_index(fragment) {
        Some(index) => calls.insert(
            index,
            merged(
                if calls.contains_key(index) {
                    calls[index]
                } else {
                    empty_builder()
                },
                fragment,
            ),
        ),
        None => calls,
    }
}

/// The builders after a sequence of fragments, taken in order.
pub open spec fn with_fragments(calls: Map<u32, BuilderView>, fragments: Seq<Json>) -> Map<
    u32,
    BuilderView,
>
    decreases fragments.len(),
{
    if fragments.len() == 0 {
        calls
    } else {
        with_fragments(with_fragment(calls, fragments[0]), fragments.drop_first())
    }
}

/// The state after the delta of a choice: its role replaces the role, its
/// content and reasoning are appended, its tool-call fragments are merged.
pub open spec fn with_delta(st: CollectorView, delta: Json) -> CollectorView {
    CollectorView {
        role: replaced(st.role, text_member(delta, "role"@)),
        content: appended(st.content, text_member(delta, "content"@)),
        reasoning: appended(st.reasoning, text_member(delta, "reasoning_content"@)),
        tool_calls: match array_member(delta, "tool_calls"@) {
            Some(fragments) => with_fragments(st.tool_calls, fragments),
            None => st.tool_calls,
        },
        ..st
    }
}

/// The state after a choice: its delta, then its finish reason, which
/// replaces the one before.
pub open spec fn with_choice(st: CollectorView, choice: Json) -> CollectorView {
    let after = match member_of(choice, "delta"@) {
        Some(delta) => with_delta(st, delta),
        None => st,
    };
    CollectorView {
        finish_reason: replaced(after.finish_reason, text_member(choice, "finish_reason"@)),
        ..after
    }
}

/// The token counts that a document gives: an object with the three
/// counts as unsigned integers.
pub open spec fn usage_of(doc: Json) -> Option<OpenAIUsage> {
    match (
        unsigned_member(doc, "prompt_tokens"@),
        unsigned_member(doc, "completion_tokens"@),
        unsigned_member(doc, "total_tokens"@),
    ) {
        (Some(prompt_tokens), Some(completion_tokens), Some(total_tokens)) => Some(
            OpenAIUsage { prompt_tokens, completion_tokens, total_tokens },
        ),
        _ => None,
    }
}

/// The usage that a document names, where it names one that can be read.
pub open spec fn named_usage(doc: Json) -> Option<OpenAIUsage> {
    match member_of(doc, "usage"@) {
        Some(u) => usage_of(u),
        None => None,
    }
}

/// The state after the head of a document: identifier, model, time of
/// creation and usage each replace what was there, where the document
/// names them.
pub open spec fn with_head(st: CollectorView, doc: Json) -> CollectorView {
    CollectorView {
        id: overwritten(st.id, text_member(doc, "id"@)),
        model: overwritten(st.model, text_member(doc, "model"@)),
        created: overwritten(st.created, unsigned_member(doc, "created"@)),
        usage: replaced(st.usage, named_usage(doc)),
        ..st
    }
}

/// The state after one document of the stream: its head, then the first
/// of its choices.
pub open spec fn with_document(st: CollectorView, doc: Json) -> CollectorView {
    let head = with_head(st, doc);
    match array_member(doc, "choices"@) {
        Some(choices) => if choices.len() > 0 {
            with_choice(head, choices[0])
        } else {
            head
        },
        None => head,
    }
}

/// What a line carries: where the line, trimmed, opens with `data: `, the
/// rest of it after every such opening, trimmed again.
pub open spec fn line_payload(line: Seq<char>) -> Option<Seq<char>> {
    let t = trim(line);
    if "data: "@.is_prefix_of(t) {
        Some(trim(strip_repeated_prefix(t, "data: "@)))
    } else {
        None
    }
}

/// The state after what a line carries: the end marker changes nothing,
/// nor does a payload that is no JSON document.
pub open spec fn with_payload(st: CollectorView, payload: Seq<char>) -> CollectorView {
    if payload == "[DONE]"@ {
        st
    } else {
        match json_document(payload) {
            Some(doc) => with_document(st, doc),
            None => st,
        }
    }
}

/// The state after one line.
pub open spec fn with_line(st: CollectorView, line: Seq<char>) -> CollectorView {
    match line_payload(line) {
        Some(payload) => with_payload(st, payload),
        None => st,
    }
}

/// The state after a text, taken line by line.
pub open spec fn with_text(st: CollectorView, text: Seq<char>) -> CollectorView
    decreases text.len(),
{
    if text.len() == 0 {
        st
    } else {
        with_text(with_line(st, first_line(text)), after_first_line(text))
    }
}

/// The state after one frame of the stream.
pub open spec fn apply_chunk(st: CollectorView, bytes: Seq<u8>) -> CollectorView {
    with_text(st, utf8_lossy_text(bytes))
}

/// The state after a sequence of frames.
pub open spec fn apply_chunks(st: CollectorView, chunks: Seq<Seq<u8>>) -> CollectorView
    decreases chunks.len(),
{
    if chunks.len() == 0 {
        st
    } else {
        apply_chunks(apply_chunk(st, chunks[0]), chunks.drop_first())
    }
}

/// The texts of `parts`, one after the other.
pub open spec fn joined(parts: Seq<Seq<char>>) -> Seq<char>
    decreases parts.len(),
{
    if parts.len() == 0 {
        Seq::empty()
    } else {
        joined(parts.drop_last()) + parts.last()
    }
}

/// The tool call that a builder comes to: what it lacks is empty, but for
/// the type, which is `function`.
pub open spec fn call_of(b: BuilderView) -> ToolCallView {
    ToolCallView {
        id: match b.id {
            Some(id) => id,
            None => Seq::empty(),
        },
        call_type: match b.call_type {
            Some(t) => t,
            None => "function"@,
        },
        name: b.name,
        arguments: b.arguments,
    }
}

/// The tool calls that the builders come to, by ascending index.
pub open spec fn ordered_calls(calls: Map<u32, BuilderView>) -> Seq<ToolCallView> {
    sorted_keys(calls.dom()).map_values(|k: u32| call_of(calls[k]))
}

/// The message that a state comes to.
pub open spec fn message_of(st: CollectorView) -> OpenAIMessageView {
    OpenAIMessageView {
        role: match st.role {
            Some(r) => r,
            None => "assistant"@,
        },
        content: Some(joined(st.content)),
        reasoning_content: if st.reasoning.len() == 0 {
            None
        } else {
            Some(joined(st.reasoning))
        },
        tool_calls: if st.tool_calls.dom() =~= Set::empty() {
            None
        } else {
            Some(ordered_calls(st.tool_calls))
        },
        tool_call_id: None,
        name: None,
    }
}

/// The response that a state comes to: one choice, with the message and
/// the finish reason, which is `stop` where the stream named none.
pub open spec fn response_of(st: CollectorView) -> OpenAIResponseView {
    OpenAIResponseView {
        id: st.id,
        object: "chat.completion"@,
        created: st.created,
        model: st.model,
        choices: seq![
            ChoiceView {
                index: 0,
                message: message_of(st),
                finish_reason: Some(
                    match st.finish_reason {
                        Some(f) => f,
                        None => "stop"@,
                    },
                ),
            },
        ],
        usage: st.usage,
    }
}

impl ToolCallBuilder {
    /// A builder that has seen no fragment.
    pub fn new() -> (r: ToolCallBuilder)
        ensures
            r@ == empty_builder(),
    {
        ToolCallBuilder { id: None, call_type: None, name: String::new(), arguments: String::new() }
    }

    /// Merges a fragment into this builder.
    pub fn merge(&mut self, fragment: &serde_json::Value)
        ensures
            final(self)@ == merged(old(self)@, json_model(*fragment)),
    {
        if self.id.is_none() {
            match read_text(fragment, "id") {
                Some(id) => {
                    self.id = Some(String::from_str(id));
                },
                None => {},
            }
        }
        if self.call_type.is_none() {
            match read_text(fragment, "type") {
                Some(t) => {
                    self.call_type = Some(String::from_str(t));
                },
                None => {},
            }
        }
        match member(fragment, "function") {
            Some(function) => {
                match read_text(function, "name") {
                    Some(name) => {
                        self.name.append(name);
                    },
                    None => {},
                }
                match read_text(function, "arguments") {
                    Some(arguments) => {
                        self.arguments.append(arguments);
                    },
                    None => {},
                }
            },
            None => {},
        }
    }

    /// The tool call that this builder comes to.
    pub fn build(&self) -> (r: ToolCall)
        ensures
            r@ == call_of(self@),
    {
        ToolCall {
            id: match &self.id {
                Some(id) => id.clone(),
                None => String::new(),
            },
            call_type: match &self.call_type {
                Some(t) => t.clone(),
                None => String::from_str("function"),
            },
            function: ToolFunction { name: self.name.clone(), arguments: self.arguments.clone() },
        }
    }
}

/// Reads the index of a tool-call fragment.
pub fn read_fragment_index(fragment: &serde_json::Value) -> (r: Option<u32>)
    ensures
        r == fragment_index(json_model(*fragment)),
{
    match read_unsigned(fragment, "index") {
        Some(v) => Some((v % 0x1_0000_0000) as u32),
        None => None,
    }
}

/// Merges a fragment into the builder of the given index.
fn merge_at(calls: &mut BTreeMap<u32, ToolCallBuilder>, index: u32, fragment: &serde_json::Value)
    ensures
        builder_views(final(calls)@) == builder_views(old(calls)@).insert(
            index,
            merged(
                if builder_views(old(calls)@).contains_key(index) {
                    builder_views(old(calls)@)[index]
                } else {
                    empty_builder()
                },
                json_model(*fragment),
            ),
        ),
{
    broadcast use vstd::laws_cmp::group_laws_cmp;

    let mut builder = match calls.remove(&index) {
        Some(b) => b,
        None => ToolCallBuilder::new(),
    };
    builder.merge(fragment);
    calls.insert(index, builder);
    assert(builder_views(calls@) =~= builder_views(old(calls)@).insert(index, builder@));
}

/// Merges a sequence of fragments, in order.
pub fn merge_fragments(calls: &mut BTreeMap<u32, ToolCallBuilder>, fragments: &Vec<serde_json::Value>)
    ensures
        builder_views(final(calls)@) == with_fragments(
            builder_views(old(calls)@),
            json_models(fragments@),
        ),
{
    let ghost all = json_models(fragments@);
    let mut i: usize = 0;
    assert(all.skip(0) == all);
    while i < fragments.len()
        invariant
            i <= fragments.len(),
            all == json_models(fragments@),
            with_fragments(builder_views(calls@), all.skip(i as int)) == with_fragments(
                builder_views(old(calls)@),
                all,
            ),
        decreases fragments.len() - i,
    {
        assert(all.skip(i as int)[0] == json_model(fragments@[i as int]));
        assert(all.skip(i as int).drop_first() == all.skip(i + 1));
        match read_fragment_index(&fragments[i]) {
            Some(index) => {
                merge_at(calls, index, &fragments[i]);
            },
            None => {},
        }
        i += 1;
    }
}

/// Reads the token counts of a document.
pub fn read_usage(doc: &serde_json::Value) -> (r: Option<OpenAIUsage>)
    ensures
        r == usage_of(json_model(*doc)),
{
    match (
        read_unsigned(doc, "prompt_tokens"),
        read_unsigned(doc, "completion_tokens"),
        read_unsigned(doc, "total_tokens"),
    ) {
        (Some(prompt_tokens), Some(completion_tokens), Some(total_tokens)) => Some(
            OpenAIUsage { prompt_tokens, completion_tokens, total_tokens },
        ),
        _ => None,
    }
}

/// The collector of one streamed completion. It lives as long as the
/// stream is read and ends in `finish`.
pub struct StreamCollector {
    id: String,
    model: String,
    created: u64,
    usage: Option<OpenAIUsage>,
    role: Option<String>,
    content_parts: Vec<String>,
    reasoning_parts: Vec<String>,
    finish_reason: Option<String>,
    tool_calls: BTreeMap<u32, ToolCallBuilder>,
}

impl View for StreamCollector {
    type V = CollectorView;

    closed spec fn view(&self) -> CollectorView {
        CollectorView {
            id: self.id@,
            model: self.model@,
            created: self.created,
            usage: self.usage,
            role: optional_text(self.role),
            content: texts(self.content_parts@),
            reasoning: texts(self.reasoning_parts@),
            finish_reason: optional_text(self.finish_reason),
            tool_calls: builder_views(self.tool_calls@),
        }
    }
}

fn join_parts(parts: &Vec<String>) -> (r: String)
    ensures
        r@ == joined(texts(parts@)),
{
    let ghost all = texts(parts@);
    let mut s = String::new();
    let mut i: usize = 0;
    while i < parts.len()
        invariant
            i <= parts.len(),
            all == texts(parts@),
            s@ == joined(all.take(i as int)),
        decreases parts.len() - i,
    {
        assert(all.take(i + 1).drop_last() == all.take(i as int));
        assert(all.take(i + 1).last() == parts@[i as int]@);
        s.append(parts[i].as_str());
        i += 1;
    }
    assert(all.take(i as int) == all);
    s
}

/// The builders' tool calls by ascending index, with the indices.
fn calls_in_order(calls: &BTreeMap<u32, ToolCallBuilder>) -> (r: (Vec<u32>, Vec<ToolCall>))
    ensures
        strictly_increasing(r.0@),
        forall|k: u32| r.0@.contains(k) <==> calls@.contains_key(k),
        r.1@.len() == r.0@.len(),
        forall|i: int| 0 <= i < r.0@.len() ==> (#[trigger] r.1@[i])@ == call_of(calls@[r.0@[i]]@),
{
    broadcast use vstd::laws_cmp::group_laws_cmp;

    let mut keys: Vec<u32> = Vec::new();
    let mut out: Vec<ToolCall> = Vec::new();
    let entries = calls.iter();
    let ghost rest = entries.remaining();
    let ghost order = rest.map_values(|kv: (&u32, &ToolCallBuilder)| *kv.0);
    proof {
        vstd::std_specs::btree::axiom_increasing_seq_meaning::<u32>(order);
        assert forall|i: int, j: int| 0 <= i < j < order.len() implies order[i] < order[j] by {
            assert(order[i].cmp_spec(&order[j]) is Less);
        }
        assert forall|i: int| 0 <= i < rest.len() implies calls@.contains_key(order[i])
            && calls@[order[i]] == *rest[i].1 by {
            assert(calls@.contains_key(*rest[i].0));
            assert(calls@[*rest[i].0] == *rest[i].1);
        }
        assert forall|k: u32| calls@.contains_key(k) implies order.contains(k) by {
            assert(rest.contains((&k, &calls@[k])));
            let i = choose|i: int| 0 <= i < rest.len() && rest[i] == (&k, &calls@[k]);
            assert(order[i] == k);
        }
    }
    for kv in it: entries
        invariant
            it.seq() == rest,
            order == rest.map_values(|kv: (&u32, &ToolCallBuilder)| *kv.0),
            keys@.len() == it.index(),
            out@.len() == it.index(),
            forall|i: int| 0 <= i < keys@.len() ==> keys@[i] == order[i],
            forall|i: int|
                0 <= i < keys@.len() ==> (#[trigger] out@[i])@ == call_of((*rest[i].1)@),
    {
        keys.push(*kv.0);
        out.push(kv.1.build());
    }
    proof {
        assert(keys@ =~= order);
        assert forall|i: int| 0 <= i < keys@.len() implies (#[trigger] out@[i])@ == call_of(
            calls@[keys@[i]]@,
        ) by {
            assert(calls@[order[i]] == *rest[i].1);
        }
        assert forall|k: u32| keys@.contains(k) implies calls@.contains_key(k) by {
            let i = choose|i: int| 0 <= i < keys@.len() && keys@[i] == k;
            assert(calls@.contains_key(order[i]));
        }
    }
    (keys, out)
}

/// The tool calls that the builders come to, by ascending index.
fn build_calls(calls: &BTreeMap<u32, ToolCallBuilder>) -> (r: Vec<ToolCall>)
    ensures
        call_views(r@) == ordered_calls(builder_views(calls@)),
{
    let (keys, out) = calls_in_order(calls);
    proof {
        let views = builder_views(calls@);
        assert forall|k: u32| keys@.contains(k) <==> views.dom().contains(k) by {}
        lemma_sorted_keys_unique(views.dom(), keys@);
        assert(call_views(out@) =~= ordered_calls(views));
    }
    out
}

impl StreamCollector {
    /// A collector that has seen nothing. `created` is the time that the
    /// response carries where the stream names none.
    pub fn new(created: u64) -> (r: StreamCollector)
        ensures
            r@ == initial_state(created),
    {
        let r = StreamCollector {
            id: String::from_str("chatcmpl-unknown"),
            model: String::from_str("unknown"),
            created,
            usage: None,
            role: None,
            content_parts: Vec::new(),
            reasoning_parts: Vec::new(),
            finish_reason: None,
            tool_calls: BTreeMap::new(),
        };
        assert(r@.content =~= Seq::empty());
        assert(r@.reasoning =~= Seq::empty());
        assert(r@.tool_calls =~= Map::empty());
        r
    }

    fn absorb_delta(&mut self, delta: &serde_json::Value)
        ensures
            final(self)@ == with_delta(old(self)@, json_model(*delta)),
    {
        match read_text(delta, "role") {
            Some(role) => {
                self.role = Some(String::from_str(role));
            },
            None => {},
        }
        match read_text(delta, "content") {
            Some(content) => {
                self.content_parts.push(String::from_str(content));
                assert(texts(self.content_parts@) =~= texts(old(self).content_parts@).push(
                    content@,
                ));
            },
            None => {},
        }
        match read_text(delta, "reasoning_content") {
            Some(reasoning) => {
                self.reasoning_parts.push(String::from_str(reasoning));
                assert(texts(self.reasoning_parts@) =~= texts(
                    old(self).reasoning_parts@,
                ).push(reasoning@));
            },
            None => {},
        }
        match read_array(delta, "tool_calls") {
            Some(fragments) => {
                merge_fragments(&mut self.tool_calls, fragments);
            },
            None => {},
        }
    }

    fn absorb_choice(&mut self, choice: &serde_json::Value)
        ensures
            final(self)@ == with_choice(old(self)@, json_model(*choice)),
    {
        match member(choice, "delta") {
            Some(delta) => {
                self.absorb_delta(delta);
            },
            None => {},
        }
        match read_text(choice, "finish_reason") {
            Some(reason) => {
                self.finish_reason = Some(String::from_str(reason));
            },
            None => {},
        }
    }

    /// Takes in one document of the stream.
    pub fn absorb_document(&mut self, doc: &serde_json::Value)
        ensures
            final(self)@ == with_document(old(self)@, json_model(*doc)),
    {
        match read_text(doc, "id") {
            Some(id) => {
                self.id = String::from_str(id);
            },
            None => {},
        }
        match read_text(doc, "model") {
            Some(model) => {
                self.model = String::from_str(model);
            },
            None => {},
        }
        match read_unsigned(doc, "created") {
            Some(created) => {
                self.created = created;
            },
            None => {},
        }
        match member(doc, "usage") {
            Some(u) => {
                match read_usage(u) {
                    Some(usage) => {
                        self.usage = Some(usage);
                    },
                    None => {},
                }
            },
            None => {},
        }
        assert(self@ == with_head(old(self)@, json_model(*doc)));
        match read_array(doc, "choices") {
            Some(choices) => {
                if choices.len() > 0 {
                    assert(json_models(choices@)[0] == json_model(choices@[0]));
                    self.absorb_choice(&choices[0]);
                }
            },
            None => {},
        }
    }

    /// Takes in what a line carries: the end marker or a document.
    pub fn feed_payload(&mut self, payload: &str)
        ensures
            final(self)@ == with_payload(old(self)@, payload@),
    {
        if same_text(payload, "[DONE]") {
            return ;
        }
        match parse_document(payload) {
            Some(doc) => {
                self.absorb_document(&doc);
            },
            None => {},
        }
    }

    fn absorb_line(&mut self, text: &str, chars: &Vec<char>, from: usize, to: usize)
        requires
            chars@ == text@,
            from <= to <= chars.len(),
        ensures
            final(self)@ == with_line(old(self)@, chars@.subrange(from as int, to as int)),
    {
        let (a, b) = trim_bounds(chars, from, to);
        let prefix = chars_of("data: ");
        if has_prefix(chars, a, b, &prefix) {
            let c = skip_repeated_prefix(chars, a, b, &prefix);
            let (d, e) = trim_bounds(chars, c, b);
            let payload = text.substring_char(d, e);
            self.feed_payload(payload);
        }
    }

    /// Takes in a text, line by line.
    pub fn feed_text(&mut self, text: &str)
        ensures
            final(self)@ == with_text(old(self)@, text@),
    {
        let chars = chars_of(text);
        let n = chars.len();
        let mut pos: usize = 0;
        assert(chars@.subrange(0, n as int) == chars@);
        while pos < n
            invariant
                pos <= n,
                n == chars.len(),
                chars@ == text@,
                with_text(self@, chars@.subrange(pos as int, n as int)) == with_text(
                    old(self)@,
                    chars@,
                ),
            decreases n - pos,
        {
            let ghost rest = chars@.subrange(pos as int, n as int);
            let end = find_line_end(&chars, pos, n);
            let next = if end < n {
                end + 1
            } else {
                n
            };
            proof {
                assert(first_line(rest) == chars@.subrange(pos as int, end as int));
                assert(after_first_line(rest) == chars@.subrange(next as int, n as int));
            }
            self.absorb_line(text, &chars, pos, end);
            pos = next;
        }
    }

    /// Takes in one frame of the stream.
    pub fn feed(&mut self, chunk: &[u8])
        ensures
            final(self)@ == apply_chunk(old(self)@, chunk@),
    {
        let text = decode_lossy(chunk);
        self.feed_text(text.as_str());
    }

    /// Ends the collection: the response that the stream came to.
    pub fn finish(self) -> (r: OpenAIResponse)
        ensures
            r@ == response_of(self@),
    {
        let content = join_parts(&self.content_parts);
        let reasoning = if self.reasoning_parts.len() == 0 {
            None
        } else {
            Some(join_parts(&self.reasoning_parts))
        };
        let tool_calls = if self.tool_calls.len() == 0 {
            assert(builder_views(self.tool_calls@).dom() =~= Set::empty());
            None
        } else {
            assert(builder_views(self.tool_calls@).dom() =~= self.tool_calls@.dom());
            assert(!(self.tool_calls@.dom() =~= Set::empty()));
            Some(build_calls(&self.tool_calls))
        };
        let message = OpenAIMessage {
            role: match self.role {
                Some(role) => role,
                None => String::from_str("assistant"),
            },
            content: Some(OpenAIContent::String(content)),
            reasoning_content: reasoning,
            tool_calls,
            tool_call_id: None,
            name: None,
        };
        let finish_reason = match self.finish_reason {
            Some(reason) => reason,
            None => String::from_str("stop"),
        };
        let mut choices: Vec<Choice> = Vec::new();
        choices.push(Choice { index: 0, message, finish_reason: Some(finish_reason) });
        let r = OpenAIResponse {
            id: self.id,
            object: String::from_str("chat.completion"),
            created: self.created,
            model: self.model,
            choices,
            usage: self.usage,
        };
        assert(r@.choices =~= response_of(self@).choices);
        r
    }
}

/// What reading a stream comes to: the state after its frames, or the
/// message for the first frame that failed to arrive.
pub open spec fn collected(st: CollectorView, chunks: Seq<Result<Vec<u8>, String>>) -> Result<
    CollectorView,
    Seq<char>,
>
    decreases chunks.len(),
{
    if chunks.len() == 0 {
        Ok(st)
    } else {
        match chunks[0] {
            Ok(bytes) => collected(apply_chunk(st, bytes@), chunks.drop_first()),
            Err(e) => Err("Stream error: "@ + e@),
        }
    }
}

/// The time `now`, in seconds since the epoch, as the unsigned number that
/// a response carries: a time before the epoch wraps around.
pub open spec fn created_at(now: i64) -> u64 {
    if now >= 0 {
        now as u64
    } else {
        (now + 0x1_0000_0000_0000_0000) as u64
    }
}

/// Whether `r` is what collecting `chunks` comes to, with `created` as the
/// time that the response carries where the stream names none.
pub open spec fn is_collection(
    r: Result<OpenAIResponse, String>,
    chunks: Seq<Result<Vec<u8>, String>>,
    created: u64,
) -> bool {
    match collected(initial_state(created), chunks) {
        Ok(st) => r matches Ok(response) && response@ == response_of(st),
        Err(message) => r matches Err(m) && m@ == message,
    }
}

/// Collects the frames of a stream into one response. `created` is the
/// time that the response carries where the stream names none. A frame
/// that failed to arrive fails the collection; the end marker does not end
/// it, only the end of the frames does.
pub fn collect_chunks(chunks: &Vec<Result<Vec<u8>, String>>, created: u64) -> (r: Result<
    OpenAIResponse,
    String,
>)
    ensures
        is_collection(r, chunks@, created),
{
    let mut collector = StreamCollector::new(created);
    let mut i: usize = 0;
    assert(chunks@.skip(0) == chunks@);
    while i < chunks.len()
        invariant
            i <= chunks.len(),
            collected(collector@, chunks@.skip(i as int)) == collected(
                initial_state(created),
                chunks@,
            ),
        decreases chunks.len() - i,
    {
        assert(chunks@.skip(i as int)[0] == chunks@[i as int]);
        assert(chunks@.skip(i as int).drop_first() == chunks@.skip(i + 1));
        match &chunks[i] {
            Ok(bytes) => {
                collector.feed(bytes.as_slice());
            },
            Err(e) => {
                let mut message = String::from_str("Stream error: ");
                message.append(e.as_str());
                return Err(message);
            },
        }
        i += 1;
    }
    Ok(collector.finish())
}

/// Brings a time in seconds since the epoch into the unsigned form that a
/// response carries.
pub fn created_from(now: i64) -> (r: u64)
    ensures
        r == created_at(now),
{
    if now >= 0 {
        now as u64
    } else {
        ((now - i64::MIN) as u64) + 0x8000_0000_0000_0000
    }
}

/// Collects the frames of a stream into one response, which carries the
/// current time where the stream names none.
pub fn collect_stream_to_json(chunks: &Vec<Result<Vec<u8>, String>>) -> (r: Result<
    OpenAIResponse,
    String,
>)
    ensures
        exists|now: i64| is_collection(r, chunks@, #[trigger] created_at(now)),
{
    let now = unix_time();
    collect_chunks(chunks, created_from(now))
}

/// The piece of argument text that a fragment carries; none counts as empty.
pub open spec fn argument_piece(fragment: Json) -> Seq<char> {
    match function_text(fragment, "arguments"@) {
        Some(text) => text,
        None => Seq::empty(),
    }
}

/// The pieces of argument text that a sequence of fragments carries.
pub open spec fn argument_pieces(fragments: Seq<Json>) -> Seq<Seq<char>> {
    fragments.map_values(|f: Json| argument_piece(f))
}

/// Joining begins with the first part.
pub proof fn lemma_joined_front(parts: Seq<Seq<char>>)
    requires
        parts.len() > 0,
    ensures
        joined(parts) == parts[0] + joined(parts.drop_first()),
    decreases parts.len(),
{
    if parts.len() == 1 {
        assert(joined(parts.drop_last()) =~= Seq::<char>::empty());
        assert(joined(parts.drop_first()) =~= Seq::<char>::empty());
        assert(joined(parts) == joined(parts.drop_last()) + parts.last());
        assert(joined(parts) =~= parts[0] + joined(parts.drop_first()));
    } else {
        let front = parts.drop_last();
        lemma_joined_front(front);
        assert(front.drop_first() == parts.drop_first().drop_last());
        assert(parts.drop_first().last() == parts.last());
        assert(front[0] == parts[0]);
        let tail = parts.drop_first();
        assert(joined(parts) == joined(front) + parts.last());
        assert(joined(tail) == joined(tail.drop_last()) + tail.last());
        assert(joined(parts) =~= parts[0] + joined(tail));
    }
}

/// Fragments that come in two runs do what they do in one: where the
/// frames of a stream are cut does not matter to the tool calls.
pub proof fn lemma_fragments_in_runs(calls: Map<u32, BuilderView>, a: Seq<Json>, b: Seq<Json>)
    ensures
        with_fragments(with_fragments(calls, a), b) == with_fragments(calls, a + b),
    decreases a.len(),
{
    if a.len() == 0 {
        assert(a + b =~= b);
    } else {
        assert((a + b)[0] == a[0]);
        assert((a + b).drop_first() =~= a.drop_first() + b);
        lemma_fragments_in_runs(with_fragment(calls, a[0]), a.drop_first(), b);
    }
}

/// Fragments of one index touch the builder of that index alone, and
/// append their pieces of argument text to it in the order of arrival.
pub proof fn lemma_fragments_of_one_index(
    calls: Map<u32, BuilderView>,
    index: u32,
    fragments: Seq<Json>,
)
    requires
        fragments.len() > 0,
        forall|i: int| 0 <= i < fragments.len() ==> fragment_index(#[trigger] fragments[i]) == Some(index),
    ensures
        with_fragments(calls, fragments).dom() == calls.dom().insert(index),
        forall|k: u32|
            k != index && calls.contains_key(k) ==> with_fragments(calls, fragments)[k] == calls[k],
        with_fragments(calls, fragments)[index].arguments == (if calls.contains_key(index) {
            calls[index]
        } else {
            empty_builder()
        }).arguments + joined(argument_pieces(fragments)),
    decreases fragments.len(),
{
    let start = if calls.contains_key(index) {
        calls[index]
    } else {
        empty_builder()
    };
    let next = with_fragment(calls, fragments[0]);
    let rest = fragments.drop_first();
    let pieces = argument_pieces(fragments);
    lemma_joined_front(pieces);
    assert(pieces.drop_first() =~= argument_pieces(rest));
    assert(next.dom() =~= calls.dom().insert(index));
    assert(next[index].arguments == start.arguments + pieces[0]);
    if rest.len() == 0 {
        assert(joined(argument_pieces(rest)) =~= Seq::<char>::empty());
        assert(with_fragments(calls, fragments) == next);
        assert(next[index].arguments =~= start.arguments + joined(pieces));
    } else {
        assert forall|i: int| 0 <= i < rest.len() implies fragment_index(#[trigger] rest[i])
            == Some(index) by {
            assert(rest[i] == fragments[i + 1]);
        }
        lemma_fragments_of_one_index(next, index, rest);
        assert(with_fragments(calls, fragments) == with_fragments(next, rest));
        assert forall|k: u32| k != index && calls.contains_key(k) implies with_fragments(
            calls,
            fragments,
        )[k] == calls[k] by {
            assert(next.contains_key(k));
            assert(next[k] == calls[k]);
        }
        assert(with_fragments(calls, fragments).dom() =~= calls.dom().insert(index));
        assert(with_fragments(calls, fragments)[index].arguments =~= start.arguments + joined(
            pieces,
        ));
    }
}

/// The tool calls of a response stand by ascending index, one for each
/// index that the stream named, whatever the order in which the indices
/// arrived.
pub proof fn lemma_calls_ordered(calls: Map<u32, BuilderView>)
    ensures
        strictly_increasing(sorted_keys(calls.dom())),
        ordered_calls(calls).len() == sorted_keys(calls.dom()).len(),
        forall|k: u32| calls.contains_key(k) <==> sorted_keys(calls.dom()).contains(k),
        forall|i: int|
            0 <= i < ordered_calls(calls).len() ==> #[trigger] ordered_calls(calls)[i] == call_of(
                calls[sorted_keys(calls.dom())[i]],
            ),
{
    crate::utils::order::lemma_keys_below(calls.dom(), 0x1_0000_0000);
    let keys = sorted_keys(calls.dom());
    assert forall|k: u32| keys.contains(k) implies calls.contains_key(k) by {
        let i = choose|i: int| 0 <= i < keys.len() && keys[i] == k;
        assert(calls.dom().contains(keys[i]));
    }
}

/// A tool call whose argument text came in pieces, split anywhere, comes
/// out as one tool call with the pieces joined in the order of arrival.
pub proof fn lemma_split_arguments(index: u32, fragments: Seq<Json>)
    requires
        fragments.len() > 0,
        forall|i: int| 0 <= i < fragments.len() ==> fragment_index(#[trigger] fragments[i]) == Some(index),
    ensures
        ordered_calls(with_fragments(Map::empty(), fragments)).len() == 1,
        ordered_calls(with_fragments(Map::empty(), fragments))[0].arguments == joined(
            argument_pieces(fragments),
        ),
{
    let calls = with_fragments(Map::<u32, BuilderView>::empty(), fragments);
    lemma_fragments_of_one_index(Map::<u32, BuilderView>::empty(), index, fragments);
    let keys = seq![index];
    assert forall|k: u32| keys.contains(k) <==> calls.dom().contains(k) by {
        if k == index {
            assert(keys[0] == k);
        }
    }
    lemma_sorted_keys_unique(calls.dom(), keys);
    assert(calls[index].arguments =~= joined(argument_pieces(fragments)));
}

/// A stream that named no role gives the assistant's, one that named no
/// finish reason gives `stop`, and the content of a response is always
/// there: empty where the stream had none.
pub proof fn lemma_defaults(st: CollectorView)
    ensures
        st.role is None ==> message_of(st).role == "assistant"@,
        st.finish_reason is None ==> response_of(st).choices[0].finish_reason == Some("stop"@),
        response_of(st).choices.len() == 1,
        message_of(st).content is Some,
        st.content.len() == 0 ==> message_of(st).content == Some(Seq::<char>::empty()),
        st.reasoning.len() == 0 <==> message_of(st).reasoning_content is None,
{
}

/// The first choice of a document, which is the one that is read.
pub open spec fn first_choice(doc: Json) -> Option<Json> {
    match array_member(doc, "choices"@) {
        Some(choices) => if choices.len() > 0 {
            Some(choices[0])
        } else {
            None
        },
        None => None,
    }
}

/// The role that a document names.
pub open spec fn named_role(doc: Json) -> Option<Seq<char>> {
    match first_choice(doc) {
        Some(choice) => match member_of(choice, "delta"@) {
            Some(delta) => text_member(delta, "role"@),
            None => None,
        },
        None => None,
    }
}

/// The finish reason that a document names.
pub open spec fn named_finish_reason(doc: Json) -> Option<Seq<char>> {
    match first_choice(doc) {
        Some(choice) => text_member(choice, "finish_reason"@),
        None => None,
    }
}

/// Role and finish reason go by the last document that names them: a
/// document that names one replaces it, and one that names none leaves it
/// as it was, so both stay unset through a stream that never names them.
pub proof fn lemma_last_write_wins(st: CollectorView, doc: Json)
    ensures
        with_document(st, doc).role == replaced(st.role, named_role(doc)),
        with_document(st, doc).finish_reason == replaced(st.finish_reason, named_finish_reason(doc)),
        with_document(st, doc).id == overwritten(st.id, text_member(doc, "id"@)),
        with_document(st, doc).model == overwritten(st.model, text_member(doc, "model"@)),
        with_document(st, doc).created == overwritten(st.created, unsigned_member(doc, "created"@)),
{
}

/// The tool-call fragments that a document carries: those of the delta of
/// its first choice.
pub open spec fn document_fragments(doc: Json) -> Seq<Json> {
    match first_choice(doc) {
        Some(choice) => match member_of(choice, "delta"@) {
            Some(delta) => match array_member(delta, "tool_calls"@) {
                Some(fragments) => fragments,
                None => Seq::empty(),
            },
            None => Seq::empty(),
        },
        None => Seq::empty(),
    }
}

/// The tool-call fragments that a line carries.
pub open spec fn line_fragments(line: Seq<char>) -> Seq<Json> {
    match line_payload(line) {
        Some(payload) => if payload == "[DONE]"@ {
            Seq::empty()
        } else {
            match json_document(payload) {
                Some(doc) => document_fragments(doc),
                None => Seq::empty(),
            }
        },
        None => Seq::empty(),
    }
}

/// The tool-call fragments that a text carries, line by line.
pub open spec fn text_fragments(text: Seq<char>) -> Seq<Json>
    decreases text.len(),
{
    if text.len() == 0 {
        Seq::empty()
    } else {
        line_fragments(first_line(text)) + text_fragments(after_first_line(text))
    }
}

/// The tool-call fragments that a stream carries, in the order of arrival.
pub open spec fn stream_fragments(chunks: Seq<Seq<u8>>) -> Seq<Json>
    decreases chunks.len(),
{
    if chunks.len() == 0 {
        Seq::empty()
    } else {
        text_fragments(utf8_lossy_text(chunks[0])) + stream_fragments(chunks.drop_first())
    }
}

/// The frames of a stream of which every frame arrived.
pub open spec fn frames_of(chunks: Seq<Result<Vec<u8>, String>>) -> Seq<Seq<u8>> {
    chunks.map_values(
        |c: Result<Vec<u8>, String>|
            match c {
                Ok(bytes) => bytes@,
                Err(_) => Seq::empty(),
            },
    )
}

/// A document does to the builders what its fragments do.
pub proof fn lemma_document_fragments(st: CollectorView, doc: Json)
    ensures
        with_document(st, doc).tool_calls == with_fragments(st.tool_calls, document_fragments(doc)),
{
}

/// A line does to the builders what its fragments do.
pub proof fn lemma_line_fragments(st: CollectorView, line: Seq<char>)
    ensures
        with_line(st, line).tool_calls == with_fragments(st.tool_calls, line_fragments(line)),
{
    match line_payload(line) {
        Some(payload) => {
            if payload != "[DONE]"@ {
                match json_document(payload) {
                    Some(doc) => {
                        lemma_document_fragments(st, doc);
                    },
                    None => {},
                }
            }
        },
        None => {},
    }
}

/// A text does to the builders what its fragments do.
pub proof fn lemma_text_fragments(st: CollectorView, text: Seq<char>)
    ensures
        with_text(st, text).tool_calls == with_fragments(st.tool_calls, text_fragments(text)),
    decreases text.len(),
{
    if text.len() > 0 {
        let line = first_line(text);
        let rest = after_first_line(text);
        let next = with_line(st, line);
        lemma_line_fragments(st, line);
        lemma_text_fragments(next, rest);
        lemma_fragments_in_runs(st.tool_calls, line_fragments(line), text_fragments(rest));
    }
}

/// A stream does to the builders what its fragments do, wherever its
/// frames are cut.
pub proof fn lemma_stream_fragments(st: CollectorView, chunks: Seq<Seq<u8>>)
    ensures
        apply_chunks(st, chunks).tool_calls == with_fragments(
            st.tool_calls,
            stream_fragments(chunks),
        ),
    decreases chunks.len(),
{
    if chunks.len() > 0 {
        let next = apply_chunk(st, chunks[0]);
        lemma_text_fragments(st, utf8_lossy_text(chunks[0]));
        lemma_stream_fragments(next, chunks.drop_first());
        lemma_fragments_in_runs(
            st.tool_calls,
            text_fragments(utf8_lossy_text(chunks[0])),
            stream_fragments(chunks.drop_first()),
        );
    }
}

/// Where every frame arrived, reading the stream comes to the state after
/// its frames.
pub proof fn lemma_collected_frames(st: CollectorView, chunks: Seq<Result<Vec<u8>, String>>)
    requires
        forall|i: int| 0 <= i < chunks.len() ==> (#[trigger] chunks[i]) is Ok,
    ensures
        collected(st, chunks) == Ok::<CollectorView, Seq<char>>(
            apply_chunks(st, frames_of(chunks)),
        ),
    decreases chunks.len(),
{
    if chunks.len() > 0 {
        let rest = chunks.drop_first();
        assert(chunks[0] is Ok);
        assert forall|i: int| 0 <= i < rest.len() implies (#[trigger] rest[i]) is Ok by {
            assert(rest[i] == chunks[i + 1]);
        }
        assert(frames_of(chunks)[0] == chunks[0]->Ok_0@);
        assert(frames_of(chunks).drop_first() =~= frames_of(rest));
        lemma_collected_frames(apply_chunk(st, chunks[0]->Ok_0@), rest);
    } else {
        assert(frames_of(chunks).len() == 0);
    }
}

/// A stream whose tool-call fragments all carry one index comes to a
/// response with one tool call, whose arguments are the pieces of argument
/// text of the fragments, joined in the order of arrival: however the
/// text was split over fragments, and the fragments over lines and frames.
pub proof fn lemma_stream_split_arguments(
    r: Result<OpenAIResponse, String>,
    chunks: Seq<Result<Vec<u8>, String>>,
    created: u64,
    index: u32,
)
    requires
        is_collection(r, chunks, created),
        forall|i: int| 0 <= i < chunks.len() ==> (#[trigger] chunks[i]) is Ok,
        stream_fragments(frames_of(chunks)).len() > 0,
        forall|i: int|
            0 <= i < stream_fragments(frames_of(chunks)).len() ==> fragment_index(
                #[trigger] stream_fragments(frames_of(chunks))[i],
            ) == Some(index),
    ensures
        r is Ok,
        r->Ok_0@.choices.len() == 1,
        r->Ok_0@.choices[0].message.tool_calls matches Some(calls) && calls.len() == 1
            && calls[0].arguments == joined(argument_pieces(stream_fragments(frames_of(chunks)))),
{
    let start = initial_state(created);
    let fragments = stream_fragments(frames_of(chunks));
    lemma_collected_frames(start, chunks);
    let end = apply_chunks(start, frames_of(chunks));
    lemma_stream_fragments(start, frames_of(chunks));
    assert(start.tool_calls =~= Map::<u32, BuilderView>::empty());
    lemma_fragments_of_one_index(Map::<u32, BuilderView>::empty(), index, fragments);
    lemma_split_arguments(index, fragments);
    assert(end.tool_calls.dom().contains(index));
    assert(!(end.tool_calls.dom() =~= Set::<u32>::empty()));
}

} // verus!
