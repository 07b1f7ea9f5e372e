//! Gathering what a model streams back.
use crate::clean::{strip_role_prefix, without_role};
use crate::events::{AutoCoordinatorEvent, EventView, TokenUsage};
use crate::items::{
    contents, items_view, reasoning_contents, ContentItem, ContentView, ItemView,
    ReasoningItemContent, ReasoningView, ResponseItem,
};
use crate::text::{blank, is_blank, join, texts, trim, trim_str};
use vstd::prelude::*;
use vstd::string::*;

verus! {

/// A piece of what a model streams back.
#[derive(Debug, Clone)]
pub enum ResponseEvent {
    /// More of the text of a message.
    OutputTextDelta { delta: String },
    /// A finished item.
    OutputItemDone { item: ResponseItem },
    /// More of a summary of the model's thoughts.
    ReasoningSummaryDelta { delta: String, summary_index: Option<u32> },
    /// More of the model's thoughts.
    ReasoningContentDelta { delta: String },
    /// The end, with the tokens used.
    Completed { token_usage: Option<TokenUsage> },
    /// A piece that is passed over.
    Other,
}

/// What a piece says.
#[allow(inconsistent_fields)]
pub enum ResponseEventView {
    OutputTextDelta { delta: Seq<char> },
    OutputItemDone { item: ItemView },
    ReasoningSummaryDelta { delta: Seq<char>, summary_index: Option<u32> },
    ReasoningContentDelta { delta: Seq<char> },
    Completed { token_usage: Option<TokenUsage> },
    Other,
}

impl View for ResponseEvent {
    type V = ResponseEventView;

    open spec fn view(&self) -> ResponseEventView {
        match *self {
            ResponseEvent::OutputTextDelta { delta } => ResponseEventView::OutputTextDelta {
                delta: delta@,
            },
            ResponseEvent::OutputItemDone { item } => ResponseEventView::OutputItemDone {
                item: item@,
            },
            ResponseEvent::ReasoningSummaryDelta { delta, summary_index } => ResponseEventView::ReasoningSummaryDelta {
                delta: delta@,
                summary_index,
            },
            ResponseEvent::ReasoningContentDelta { delta } => ResponseEventView::ReasoningContentDelta {
                delta: delta@,
            },
            ResponseEvent::Completed { token_usage } => ResponseEventView::Completed { token_usage },
            ResponseEvent::Other => ResponseEventView::Other,
        }
    }
}

/// What was gathered when a stream has ended.
#[derive(Debug, Clone)]
pub struct RequestStreamResult {
    pub output_text: String,
    pub response_items: Vec<ResponseItem>,
    pub token_usage: Option<TokenUsage>,
    pub model_slug: String,
}

/// What was gathered.
pub struct StreamResultView {
    pub output_text: Seq<char>,
    pub response_items: Seq<ItemView>,
    pub token_usage: Option<TokenUsage>,
    pub model_slug: Seq<char>,
}

impl View for RequestStreamResult {
    type V = StreamResultView;

    open spec fn view(&self) -> StreamResultView {
        StreamResultView {
            output_text: self.output_text@,
            response_items: items_view(self.response_items@),
            token_usage: self.token_usage,
            model_slug: self.model_slug@,
        }
    }
}

/// What has been gathered so far.
#[derive(Debug, Clone)]
pub struct StreamState {
    out: String,
    response_items: Vec<ResponseItem>,
    reasoning: String,
    saw_output_text_delta: bool,
    token_usage: Option<TokenUsage>,
    done: bool,
}

/// What has been gathered so far.
pub struct StreamView {
    /// The text of the reply.
    pub out: Seq<char>,
    /// The finished items.
    pub items: Seq<ItemView>,
    /// The thoughts since the last finished item of thoughts.
    pub reasoning: Seq<char>,
    /// Whether text has come in pieces since the last finished item.
    pub saw_delta: bool,
    pub usage: Option<TokenUsage>,
    /// Whether the stream has said that it ends.
    pub done: bool,
}

impl View for StreamState {
    type V = StreamView;

    closed spec fn view(&self) -> StreamView {
        StreamView {
            out: self.out@,
            items: items_view(self.response_items@),
            reasoning: self.reasoning@,
            saw_delta: self.saw_output_text_delta,
            usage: self.token_usage,
            done: self.done,
        }
    }
}

/// The texts that a message puts out, one after the other.
pub open spec fn output_of(content: Seq<ContentView>) -> Seq<char>
    decreases content.len(),
{
    if content.len() == 0 {
        Seq::empty()
    } else {
        output_of(content.drop_last()) + match content.last() {
            ContentView::Output(text) => text,
            _ => Seq::empty(),
        }
    }
}

/// The text that a finished item adds to the reply: that of a message, unless it came in pieces.
pub open spec fn item_text(item: ItemView, saw_delta: bool) -> Seq<char> {
    match item {
        ItemView::Message { content, .. } => if saw_delta {
            Seq::empty()
        } else {
            output_of(content)
        },
        _ => Seq::empty(),
    }
}

/// What is gathered when one more piece has come.
pub open spec fn stream_step(st: StreamView, event: ResponseEventView) -> StreamView {
    if st.done {
        st
    } else {
        match event {
            ResponseEventView::OutputTextDelta { delta } => StreamView {
                out: st.out + delta,
                saw_delta: true,
                ..st
            },
            ResponseEventView::OutputItemDone { item } => StreamView {
                out: st.out + item_text(item, st.saw_delta),
                reasoning: if item is Reasoning {
                    Seq::empty()
                } else {
                    st.reasoning
                },
                items: st.items.push(item),
                saw_delta: false,
                ..st
            },
            ResponseEventView::ReasoningSummaryDelta { delta, .. } => StreamView {
                reasoning: st.reasoning + without_role(delta),
                ..st
            },
            ResponseEventView::ReasoningContentDelta { delta } => StreamView {
                reasoning: st.reasoning + without_role(delta),
                ..st
            },
            ResponseEventView::Completed { token_usage } => StreamView {
                usage: token_usage,
                done: true,
                ..st
            },
            ResponseEventView::Other => st,
        }
    }
}

/// What is announced when one more piece has come: the model's thoughts.
pub open spec fn stream_event(st: StreamView, event: ResponseEventView) -> Option<EventView> {
    if st.done {
        None
    } else {
        match event {
            ResponseEventView::ReasoningSummaryDelta { delta, summary_index } => Some(
                EventView::Thinking { delta: without_role(delta), summary_index },
            ),
            ResponseEventView::ReasoningContentDelta { delta } => Some(
                EventView::Thinking { delta: without_role(delta), summary_index: None },
            ),
            _ => None,
        }
    }
}

/// What is gathered when nothing has come.
pub open spec fn stream_start() -> StreamView {
    StreamView {
        out: Seq::empty(),
        items: Seq::empty(),
        reasoning: Seq::empty(),
        saw_delta: false,
        usage: None,
        done: false,
    }
}

/// What is gathered when a number of pieces have come.
pub open spec fn stream_after(events: Seq<ResponseEventView>) -> StreamView
    decreases events.len(),
{
    if events.len() == 0 {
        stream_start()
    } else {
        stream_step(stream_after(events.drop_last()), events.last())
    }
}

/// The thoughts that belong to no finished item, as an item.
pub open spec fn loose_thoughts(reasoning: Seq<char>) -> ItemView {
    ItemView::Reasoning {
        id: ""@,
        summary: Seq::empty(),
        content: Some(seq![ReasoningView::Reasoning(trim(reasoning))]),
        encrypted_content: None,
    }
}

/// Some item holds thoughts.
pub open spec fn has_thoughts(items: Seq<ItemView>) -> bool {
    exists|i: int| 0 <= i < items.len() && (#[trigger] items[i]) is Reasoning
}

/// The items of a stream that has ended: those that were finished, and the thoughts where no item
/// holds any.
pub open spec fn final_items(st: StreamView) -> Seq<ItemView> {
    if !blank(st.reasoning) && !has_thoughts(st.items) {
        st.items.push(loose_thoughts(st.reasoning))
    } else {
        st.items
    }
}

/// What was gathered when a stream has ended.
pub open spec fn stream_result(st: StreamView, model_slug: Seq<char>) -> StreamResultView {
    StreamResultView {
        output_text: st.out,
        response_items: final_items(st),
        token_usage: st.usage,
        model_slug,
    }
}

/// The texts that a message puts out.
fn output_text(content: &Vec<ContentItem>) -> (r: String)
    ensures
        r@ == output_of(contents(content@)),
{
    let mut text = String::new();
    let mut i: usize = 0;
    assert(contents(content@).take(0) =~= Seq::empty());
    while i < content.len()
        invariant
            i <= content@.len(),
            text@ == output_of(contents(content@).take(i as int)),
        decreases content.len() - i,
    {
        let ghost before = contents(content@).take(i as int);
        let ghost after = contents(content@).take(i + 1);
        assert(after.drop_last() =~= before);
        assert(after.last() == content@[i as int]@);
        match &content[i] {
            ContentItem::OutputText { text: more } => {
                text.append(more.as_str());
            },
            _ => {
                assert(text@ + Seq::<char>::empty() =~= text@);
            },
        }
        i = i + 1;
    }
    assert(contents(content@).take(i as int) =~= contents(content@));
    text
}

impl StreamState {
    /// Nothing gathered yet.
    pub fn new() -> (r: Self)
        ensures
            r@ == stream_start(),
    {
        let r = StreamState {
            out: String::new(),
            response_items: Vec::new(),
            reasoning: String::new(),
            saw_output_text_delta: false,
            token_usage: None,
            done: false,
        };
        assert(items_view(r.response_items@) =~= Seq::<ItemView>::empty());
        assert(r.out@ =~= Seq::<char>::empty());
        assert(r.reasoning@ =~= Seq::<char>::empty());
        r
    }

    /// Whether the stream has said that it ends.
    pub fn is_done(&self) -> (r: bool)
        ensures
            r == self@.done,
    {
        self.done
    }

    /// Takes one more piece, and gives what is announced on its account.
    pub fn on_event(&mut self, event: ResponseEvent) -> (r: Option<AutoCoordinatorEvent>)
        ensures
            final(self)@ == stream_step(old(self)@, event@),
            match r {
                Some(e) => stream_event(old(self)@, event@) == Some(e@),
                None => stream_event(old(self)@, event@) is None,
            },
    {
        if self.done {
            return None;
        }
        match event {
            ResponseEvent::OutputTextDelta { delta } => {
                self.out.append(delta.as_str());
                self.saw_output_text_delta = true;
                None
            },
            ResponseEvent::OutputItemDone { item } => {
                assert(self.out@ + Seq::<char>::empty() =~= self.out@);
                if let ResponseItem::Message { content, .. } = &item {
                    if !self.saw_output_text_delta {
                        let text = output_text(content);
                        self.out.append(text.as_str());
                    }
                }
                if let ResponseItem::Reasoning { .. } = &item {
                    self.reasoning = String::new();
                    assert(self.reasoning@ =~= Seq::<char>::empty());
                }
                let ghost before = self.response_items@;
                self.response_items.push(item);
                self.saw_output_text_delta = false;
                assert(items_view(self.response_items@) =~= items_view(before).push(item@));
                None
            },
            ResponseEvent::ReasoningSummaryDelta { delta, summary_index } => {
                let cleaned = strip_role_prefix(delta.as_str()).to_owned();
                self.reasoning.append(cleaned.as_str());
                Some(AutoCoordinatorEvent::Thinking { delta: cleaned, summary_index })
            },
            ResponseEvent::ReasoningContentDelta { delta } => {
                let cleaned = strip_role_prefix(delta.as_str()).to_owned();
                self.reasoning.append(cleaned.as_str());
                Some(AutoCoordinatorEvent::Thinking { delta: cleaned, summary_index: None })
            },
            ResponseEvent::Completed { token_usage } => {
                self.token_usage = token_usage;
                self.done = true;
                None
            },
            ResponseEvent::Other => None,
        }
    }

    /// Whether some finished item holds thoughts.
    fn holds_thoughts(&self) -> (r: bool)
        ensures
            r == has_thoughts(self@.items),
    {
        let mut i: usize = 0;
        while i < self.response_items.len()
            invariant
                i <= self.response_items@.len(),
                forall|j: int| 0 <= j < i ==> !((#[trigger] self@.items[j]) is Reasoning),
            decreases self.response_items.len() - i,
        {
            assert(self@.items[i as int] == self.response_items@[i as int]@);
            if let ResponseItem::Reasoning { .. } = &self.response_items[i] {
                return true;
            }
            i = i + 1;
        }
        false
    }

    /// What was gathered when the stream has ended.
    pub fn finish(self, model_slug: &str) -> (r: RequestStreamResult)
        ensures
            r@ == stream_result(self@, model_slug@),
    {
        let add = !is_blank(self.reasoning.as_str()) && !self.holds_thoughts();
        let mut response_items = self.response_items;
        if add {
            let text = trim_str(self.reasoning.as_str()).to_owned();
            let mut thoughts: Vec<ReasoningItemContent> = Vec::new();
            thoughts.push(ReasoningItemContent::ReasoningText { text });
            let summary: Vec<String> = Vec::new();
            let id = "".to_owned();
            assert(reasoning_contents(thoughts@) =~= seq![
                ReasoningView::Reasoning(trim(self.reasoning@)),
            ]);
            assert(texts(summary@) =~= Seq::empty());
            let item = ResponseItem::Reasoning {
                id,
                summary,
                content: Some(thoughts),
                encrypted_content: None,
            };
            assert(item@ == loose_thoughts(self.reasoning@));
            let ghost before = response_items@;
            response_items.push(item);
            assert(items_view(response_items@) =~= items_view(before).push(item@));
        }
        RequestStreamResult {
            output_text: self.out,
            response_items,
            token_usage: self.token_usage,
            model_slug: model_slug.to_owned(),
        }
    }
}

/// Text that came in pieces is not counted again when the message that holds it is finished.
pub proof fn law_streamed_text_counts_once(st: StreamView, delta: Seq<char>, item: ItemView)
    requires
        !st.done,
    ensures
        stream_step(
            stream_step(st, ResponseEventView::OutputTextDelta { delta }),
            ResponseEventView::OutputItemDone { item },
        ).out == st.out + delta,
{
    assert(st.out + delta + Seq::<char>::empty() =~= st.out + delta);
}

/// Pieces only ever add to the text and to the items, and each finished item is kept in its place.
pub proof fn law_stream_grows(st: StreamView, event: ResponseEventView)
    ensures
        st.out.is_prefix_of(stream_step(st, event).out),
        st.items.is_prefix_of(stream_step(st, event).items),
        !st.done ==> (event matches ResponseEventView::OutputItemDone { item } ==> stream_step(
            st,
            event,
        ).items == st.items.push(item)),
        !(event is OutputItemDone) ==> stream_step(st, event).items == st.items,
{
    assert(st.out =~= st.out.take(st.out.len() as int));
}

/// What comes after the end of a stream counts for nothing.
pub proof fn law_nothing_after_the_end(
    events: Seq<ResponseEventView>,
    more: Seq<ResponseEventView>,
)
    requires
        stream_after(events).done,
    ensures
        stream_after(events + more) == stream_after(events),
    decreases more.len(),
{
    if more.len() == 0 {
        assert(events + more =~= events);
    } else {
        law_nothing_after_the_end(events, more.drop_last());
        assert((events + more).drop_last() =~= events + more.drop_last());
    }
}

/// Thoughts that were streamed and belong to no finished item are not lost: an item of the result
/// holds thoughts.
pub proof fn law_thoughts_are_kept(st: StreamView)
    requires
        !blank(st.reasoning),
    ensures
        has_thoughts(final_items(st)),
        st.items.is_prefix_of(final_items(st)),
{
    if !has_thoughts(st.items) {
        assert(final_items(st)[st.items.len() as int] is Reasoning);
    }
}

/// What each piece of a stream adds: text to the reply, a finished item to the items, with its text
/// where that has not come in pieces, thoughts to the thoughts; the end brings the tokens. Nothing
/// else changes.
pub proof fn law_what_pieces_add(st: StreamView, event: ResponseEventView)
    requires
        !st.done,
    ensures
        ({
            let after = stream_step(st, event);
            match event {
                ResponseEventView::OutputTextDelta { delta } => {
                    &&& after.out == st.out + delta
                    &&& after.saw_delta
                    &&& after.items == st.items && after.reasoning == st.reasoning
                    &&& after.usage == st.usage && !after.done
                },
                ResponseEventView::OutputItemDone { item } => {
                    &&& after.items == st.items + seq![item]
                    &&& !after.saw_delta
                    &&& after.out == match item {
                        ItemView::Message { content, .. } => if st.saw_delta {
                            st.out
                        } else {
                            st.out + output_of(content)
                        },
                        _ => st.out,
                    }
                    &&& item is Reasoning ==> after.reasoning.len() == 0
                    &&& !(item is Reasoning) ==> after.reasoning == st.reasoning
                    &&& after.usage == st.usage && !after.done
                },
                ResponseEventView::ReasoningSummaryDelta { delta, .. } => {
                    &&& after.reasoning == st.reasoning + without_role(delta)
                    &&& after.out == st.out && after.items == st.items
                    &&& after.saw_delta == st.saw_delta && after.usage == st.usage && !after.done
                },
                ResponseEventView::ReasoningContentDelta { delta } => {
                    &&& after.reasoning == st.reasoning + without_role(delta)
                    &&& after.out == st.out && after.items == st.items
                    &&& after.saw_delta == st.saw_delta && after.usage == st.usage && !after.done
                },
                ResponseEventView::Completed { token_usage } => {
                    &&& after.usage == token_usage && after.done
                    &&& after.out == st.out && after.items == st.items
                    &&& after.reasoning == st.reasoning
                },
                ResponseEventView::Other => after == st,
            }
        }),
{
    assert(st.out + Seq::<char>::empty() =~= st.out);
    if let ResponseEventView::OutputItemDone { item } = event {
        assert(st.items.push(item) =~= st.items + seq![item]);
    }
}

/// A message puts out its texts one after the other, and its other pieces not at all.
pub proof fn law_messages_put_out_their_texts(content: Seq<ContentView>, piece: ContentView)
    ensures
        output_of(content.push(piece)) == match piece {
            ContentView::Output(text) => output_of(content) + text,
            _ => output_of(content),
        },
        output_of(Seq::<ContentView>::empty()).len() == 0,
{
    assert(content.push(piece).drop_last() =~= content);
    assert(output_of(content) + Seq::<char>::empty() =~= output_of(content));
}

/// The pieces of a text, as they are streamed.
pub open spec fn text_pieces(texts: Seq<Seq<char>>) -> Seq<ResponseEventView> {
    texts.map_values(|delta: Seq<char>| ResponseEventView::OutputTextDelta { delta })
}

/// A text that is streamed in pieces is put together again, in order.
pub proof fn law_pieces_make_the_text(texts: Seq<Seq<char>>)
    ensures
        stream_after(text_pieces(texts)).out == join(texts, Seq::empty()),
        stream_after(text_pieces(texts)).items.len() == 0,
        !stream_after(text_pieces(texts)).done,
    decreases texts.len(),
{
    let pieces = text_pieces(texts);
    if texts.len() == 0 {
        assert(stream_after(pieces).out =~= join(texts, Seq::empty()));
    } else {
        law_pieces_make_the_text(texts.drop_last());
        assert(pieces.drop_last() =~= text_pieces(texts.drop_last()));
        assert(pieces.last() == ResponseEventView::OutputTextDelta { delta: texts.last() });
        let before = join(texts.drop_last(), Seq::empty());
        assert(before + Seq::<char>::empty() =~= before);
        if texts.len() == 1 {
            assert(texts.drop_last().len() == 0);
            assert(before =~= Seq::<char>::empty());
            assert(before + texts.last() =~= texts.last());
        }
    }
}

/// Thoughts are announced as they come, without the name of a role, and only they are; nothing is
/// announced after the end.
pub proof fn law_thoughts_are_announced(st: StreamView, event: ResponseEventView)
    ensures
        st.done ==> stream_event(st, event) is None,
        !st.done ==> match event {
            ResponseEventView::ReasoningSummaryDelta { delta, summary_index } => stream_event(
                st,
                event,
            ) == Some(EventView::Thinking { delta: without_role(delta), summary_index }),
            ResponseEventView::ReasoningContentDelta { delta } => stream_event(st, event) == Some(
                EventView::Thinking { delta: without_role(delta), summary_index: None },
            ),
            _ => stream_event(st, event) is None,
        },
{
}

/// What was gathered is handed on whole: the text, the items and the tokens, with the model that was
/// asked; thoughts that no item holds are put behind the items, trimmed, unless they are blank.
pub proof fn law_what_was_gathered_is_handed_on(st: StreamView, model_slug: Seq<char>)
    ensures
        ({
            let result = stream_result(st, model_slug);
            let held = exists|i: int| 0 <= i < st.items.len() && (#[trigger] st.items[i]) is Reasoning;
            &&& result.output_text == st.out
            &&& result.token_usage == st.usage
            &&& result.model_slug == model_slug
            &&& blank(st.reasoning) || held ==> result.response_items == st.items
            &&& !blank(st.reasoning) && !held ==> {
                &&& result.response_items.len() == st.items.len() + 1
                &&& result.response_items.drop_last() == st.items
                &&& result.response_items.last() matches ItemView::Reasoning {
                    id,
                    summary,
                    content: Some(content),
                    encrypted_content: None,
                } && id.len() == 0 && summary.len() == 0 && content.len() == 1 && content[0]
                    == ReasoningView::Reasoning(trim(st.reasoning))
            }
        }),
        stream_start().out.len() == 0,
        stream_start().items.len() == 0,
        stream_start().reasoning.len() == 0,
        !stream_start().done,
        stream_start().usage is None,
{
    reveal_strlit("");
    let result = stream_result(st, model_slug);
    if !blank(st.reasoning) && !has_thoughts(st.items) {
        assert(result.response_items.drop_last() =~= st.items);
    }
}

} // verus!
