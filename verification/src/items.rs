//! The items of a conversation.
use crate::text::{
    copy_opt, copy_strings, equal_ignoring_case, opt_text, same_ignoring_case, str_contains,
    texts,
};
use vstd::prelude::*;
use vstd::string::*;

verus! {

/// A piece of a message.
#[derive(Debug, Clone)]
pub enum ContentItem {
    InputText { text: String },
    OutputText { text: String },
    /// A piece of another kind, in its encoded form.
    Other(String),
}

/// A piece of a model's reasoning.
#[derive(Debug, Clone)]
pub enum ReasoningItemContent {
    ReasoningText { text: String },
    /// A piece of another kind, in its encoded form.
    Other(String),
}

/// One item of a conversation.
#[allow(inconsistent_fields)]
#[derive(Debug, Clone)]
pub enum ResponseItem {
    Message { id: Option<String>, role: String, content: Vec<ContentItem> },
    Reasoning {
        id: String,
        summary: Vec<String>,
        content: Option<Vec<ReasoningItemContent>>,
        encrypted_content: Option<String>,
    },
    /// An item of another kind, in its encoded form.
    Other(String),
}

/// What a piece of a message says.
pub enum ContentView {
    Input(Seq<char>),
    Output(Seq<char>),
    Other(Seq<char>),
}

/// What a piece of reasoning says.
pub enum ReasoningView {
    Reasoning(Seq<char>),
    Other(Seq<char>),
}

/// What an item of a conversation says.
#[allow(inconsistent_fields)]
pub enum ItemView {
    Message { id: Option<Seq<char>>, role: Seq<char>, content: Seq<ContentView> },
    Reasoning {
        id: Seq<char>,
        summary: Seq<Seq<char>>,
        content: Option<Seq<ReasoningView>>,
        encrypted_content: Option<Seq<char>>,
    },
    Other(Seq<char>),
}

impl View for ContentItem {
    type V = ContentView;

    open spec fn view(&self) -> ContentView {
        match *self {
            ContentItem::InputText { text } => ContentView::Input(text@),
            ContentItem::OutputText { text } => ContentView::Output(text@),
            ContentItem::Other(text) => ContentView::Other(text@),
        }
    }
}

impl View for ReasoningItemContent {
    type V = ReasoningView;

    open spec fn view(&self) -> ReasoningView {
        match *self {
            ReasoningItemContent::ReasoningText { text } => ReasoningView::Reasoning(text@),
            ReasoningItemContent::Other(text) => ReasoningView::Other(text@),
        }
    }
}

/// What the pieces of a message say.
pub open spec fn contents(v: Seq<ContentItem>) -> Seq<ContentView> {
    Seq::new(v.len(), |i: int| v[i]@)
}

/// What the pieces of a model's reasoning say.
pub open spec fn reasoning_contents(v: Seq<ReasoningItemContent>) -> Seq<ReasoningView> {
    Seq::new(v.len(), |i: int| v[i]@)
}

impl View for ResponseItem {
    type V = ItemView;

    open spec fn view(&self) -> ItemView {
        match *self {
            ResponseItem::Message { id, role, content } => ItemView::Message {
                id: opt_text(id),
                role: role@,
                content: contents(content@),
            },
            ResponseItem::Reasoning { id, summary, content, encrypted_content } => ItemView::Reasoning {
                id: id@,
                summary: texts(summary@),
                content: match content {
                    Some(c) => Some(reasoning_contents(c@)),
                    None => None,
                },
                encrypted_content: opt_text(encrypted_content),
            },
            ResponseItem::Other(text) => ItemView::Other(text@),
        }
    }
}

/// What the items of a conversation say.
pub open spec fn items_view(v: Seq<ResponseItem>) -> Seq<ItemView> {
    Seq::new(v.len(), |i: int| v[i]@)
}

fn copy_content(c: &ContentItem) -> (r: ContentItem)
    ensures
        r@ == c@,
{
    match c {
        ContentItem::InputText { text } => ContentItem::InputText { text: text.clone() },
        ContentItem::OutputText { text } => ContentItem::OutputText { text: text.clone() },
        ContentItem::Other(text) => ContentItem::Other(text.clone()),
    }
}

fn copy_reasoning(c: &ReasoningItemContent) -> (r: ReasoningItemContent)
    ensures
        r@ == c@,
{
    match c {
        ReasoningItemContent::ReasoningText { text } => ReasoningItemContent::ReasoningText {
            text: text.clone(),
        },
        ReasoningItemContent::Other(text) => ReasoningItemContent::Other(text.clone()),
    }
}

fn copy_contents(v: &Vec<ContentItem>) -> (r: Vec<ContentItem>)
    ensures
        contents(r@) == contents(v@),
{
    let mut r: Vec<ContentItem> = Vec::new();
    for i in 0..v.len()
        invariant
            contents(r@) == contents(v@).take(i as int),
    {
        let ghost before = contents(r@);
        r.push(copy_content(&v[i]));
        assert(contents(r@) =~= before.push(v@[i as int]@));
        assert(contents(v@).take(i + 1) =~= contents(v@).take(i as int).push(v@[i as int]@));
    }
    assert(contents(v@).take(v@.len() as int) =~= contents(v@));
    r
}

fn copy_reasoning_contents(v: &Vec<ReasoningItemContent>) -> (r: Vec<ReasoningItemContent>)
    ensures
        reasoning_contents(r@) == reasoning_contents(v@),
{
    let mut r: Vec<ReasoningItemContent> = Vec::new();
    let ghost all = reasoning_contents(v@);
    for i in 0..v.len()
        invariant
            all == reasoning_contents(v@),
            reasoning_contents(r@) == all.take(i as int),
    {
        let ghost before = reasoning_contents(r@);
        r.push(copy_reasoning(&v[i]));
        assert(reasoning_contents(r@) =~= before.push(v@[i as int]@));
        assert(all.take(i + 1) =~= all.take(i as int).push(v@[i as int]@));
    }
    assert(all.take(v@.len() as int) =~= all);
    r
}

/// A copy of an item.
pub fn copy_item(item: &ResponseItem) -> (r: ResponseItem)
    ensures
        r@ == item@,
{
    match item {
        ResponseItem::Message { id, role, content } => ResponseItem::Message {
            id: copy_opt(id),
            role: role.clone(),
            content: copy_contents(content),
        },
        ResponseItem::Reasoning { id, summary, content, encrypted_content } => ResponseItem::Reasoning {
            id: id.clone(),
            summary: copy_strings(summary),
            content: match content {
                Some(c) => Some(copy_reasoning_contents(c)),
                None => None,
            },
            encrypted_content: copy_opt(encrypted_content),
        },
        ResponseItem::Other(text) => ResponseItem::Other(text.clone()),
    }
}

/// A copy of a conversation.
pub fn copy_items(v: &Vec<ResponseItem>) -> (r: Vec<ResponseItem>)
    ensures
        items_view(r@) == items_view(v@),
{
    let mut r: Vec<ResponseItem> = Vec::new();
    let ghost all = items_view(v@);
    for i in 0..v.len()
        invariant
            all == items_view(v@),
            items_view(r@) == all.take(i as int),
    {
        let ghost before = items_view(r@);
        r.push(copy_item(&v[i]));
        assert(items_view(r@) =~= before.push(v@[i as int]@));
        assert(all.take(i + 1) =~= all.take(i as int).push(v@[i as int]@));
    }
    assert(all.take(v@.len() as int) =~= all);
    r
}

/// A message with one piece of text: output where the assistant speaks, else input.
pub open spec fn message(role: Seq<char>, text: Seq<char>) -> ItemView {
    ItemView::Message {
        id: None,
        role,
        content: seq![
            if same_ignoring_case(role, "assistant"@) {
                ContentView::Output(text)
            } else {
                ContentView::Input(text)
            },
        ],
    }
}

/// A message with one piece of text.
pub fn make_message(role: &str, text: String) -> (r: ResponseItem)
    ensures
        r@ == message(role@, text@),
{
    let piece = if equal_ignoring_case(role, "assistant") {
        ContentItem::OutputText { text }
    } else {
        ContentItem::InputText { text }
    };
    let mut content: Vec<ContentItem> = Vec::new();
    content.push(piece);
    assert(contents(content@) =~= seq![piece@]);
    ResponseItem::Message { id: None, role: role.to_owned(), content }
}

/// A piece of input that lists the popular commands.
pub open spec fn lists_commands(c: ContentView) -> bool {
    c matches ContentView::Input(text) && crate::text::contains(text, "Popular commands:"@)
}

/// A user's message that lists the popular commands.
pub open spec fn popular_commands(item: ItemView) -> bool {
    item matches ItemView::Message { role, content, .. } && same_ignoring_case(role, "user"@)
        && exists|i: int| 0 <= i < content.len() && lists_commands(#[trigger] content[i])
}

/// Tells whether one of the pieces lists the popular commands.
fn any_lists_commands(content: &Vec<ContentItem>) -> (r: bool)
    ensures
        r == exists|i: int|
            0 <= i < content@.len() && lists_commands(#[trigger] contents(content@)[i]),
{
    for i in 0..content.len()
        invariant
            forall|j: int| 0 <= j < i ==> !lists_commands(#[trigger] contents(content@)[j]),
    {
        if let ContentItem::InputText { text } = &content[i] {
            if str_contains(text.as_str(), "Popular commands:") {
                assert(lists_commands(contents(content@)[i as int]));
                return true;
            }
        }
        assert(!lists_commands(contents(content@)[i as int]));
    }
    false
}

/// Tells whether an item is a user's message that lists the popular commands.
pub fn is_popular_commands_message(item: &ResponseItem) -> (r: bool)
    ensures
        r == popular_commands(item@),
{
    match item {
        ResponseItem::Message { role, content, .. } => {
            equal_ignoring_case(role.as_str(), "user") && any_lists_commands(content)
        },
        _ => false,
    }
}

/// A conversation without the messages that list the popular commands.
pub open spec fn without_popular(items: Seq<ItemView>) -> Seq<ItemView> {
    items.filter(|item: ItemView| !popular_commands(item))
}

/// Drops the messages that list the popular commands and keeps the rest in order.
pub fn filter_popular_commands(items: Vec<ResponseItem>) -> (r: Vec<ResponseItem>)
    ensures
        items_view(r@) == without_popular(items_view(items@)),
{
    let mut r: Vec<ResponseItem> = Vec::new();
    let ghost all = items_view(items@);
    let ghost keep = |item: ItemView| !popular_commands(item);
    let ghost values = items@;
    proof {
        assert(all.take(0).filter(keep) =~= Seq::<ItemView>::empty()) by {
            reveal(Seq::filter);
        }
    }
    for item in it: items.into_iter()
        invariant
            it.seq() == values,
            all == items_view(values),
            keep == (|item: ItemView| !popular_commands(item)),
            items_view(r@) == all.take(it.index() as int).filter(keep),
    {
        let ghost before = items_view(r@);
        let ghost i = it.index() as int;
        proof {
            reveal(Seq::filter);
            assert(all.take(i + 1).drop_last() =~= all.take(i));
            assert(all.take(i + 1).last() == item@);
        }
        if !is_popular_commands_message(&item) {
            r.push(item);
            assert(items_view(r@) =~= before.push(item@));
        }
    }
    assert(all.take(all.len() as int) =~= all);
    r
}

/// Dropping the lists of popular commands again drops nothing more.
pub proof fn law_filter_popular_idempotent(items: Seq<ItemView>)
    ensures
        without_popular(without_popular(items)) == without_popular(items),
    decreases items.len(),
{
    reveal(Seq::filter);
    let keep = |item: ItemView| !popular_commands(item);
    if items.len() > 0 {
        law_filter_popular_idempotent(items.drop_last());
        let inner = without_popular(items.drop_last());
        if keep(items.last()) {
            assert(inner.push(items.last()).drop_last() =~= inner);
        }
    }
}

/// A message holds its text and nothing more: as output where the assistant speaks, in capitals or
/// small letters, and as input from everybody else.
pub proof fn law_messages_hold_their_text(role: Seq<char>, text: Seq<char>)
    ensures
        message(role, text) matches ItemView::Message { id, role: speaker, content } && {
            &&& id is None
            &&& speaker == role
            &&& content.len() == 1
            &&& same_ignoring_case(role, "assistant"@) ==> content[0] == ContentView::Output(text)
            &&& !same_ignoring_case(role, "assistant"@) ==> content[0] == ContentView::Input(text)
        },
{
}

/// Only a user's message that lists the popular commands is dropped from a conversation: everything
/// else stays, in its order.
pub proof fn law_only_lists_of_commands_are_dropped(before: Seq<ItemView>, item: ItemView)
    ensures
        ({
            let listed = item matches ItemView::Message { role, content, .. } && same_ignoring_case(
                role,
                "user"@,
            ) && exists|i: int|
                0 <= i < content.len() && (#[trigger] content[i] matches ContentView::Input(text)
                    && crate::text::contains(text, "Popular commands:"@));
            without_popular(before.push(item)) == if listed {
                without_popular(before)
            } else {
                without_popular(before).push(item)
            }
        }),
        without_popular(Seq::empty()) == Seq::<ItemView>::empty(),
{
    reveal(Seq::filter);
    assert(before.push(item).drop_last() =~= before);
    if let ItemView::Message { role, content, .. } = item {
        if exists|i: int| 0 <= i < content.len() && lists_commands(#[trigger] content[i]) {
            let i = choose|i: int| 0 <= i < content.len() && lists_commands(#[trigger] content[i]);
            assert(content[i] matches ContentView::Input(text));
        }
        if exists|i: int|
            0 <= i < content.len() && (#[trigger] content[i] matches ContentView::Input(text)
                && crate::text::contains(text, "Popular commands:"@)) {
            let i = choose|i: int|
                0 <= i < content.len() && (#[trigger] content[i] matches ContentView::Input(text)
                    && crate::text::contains(text, "Popular commands:"@));
            assert(lists_commands(content[i]));
        }
    }
}

/// What is seen of a conversation is all that it holds: each item in its place, with its kind, its
/// speaker and every piece of it.
pub proof fn law_conversations_are_seen_whole(items: Vec<ResponseItem>, i: int, k: int)
    requires
        0 <= i < items@.len(),
    ensures
        items_view(items@).len() == items@.len(),
        match items@[i] {
            ResponseItem::Message { id, role, content } => items_view(items@)[i] matches
                ItemView::Message { id: a, role: b, content: c } && a == opt_text(id) && b == role@
                && c.len() == content@.len() && (0 <= k < content@.len() ==> match content@[k] {
                ContentItem::InputText { text } => c[k] == ContentView::Input(text@),
                ContentItem::OutputText { text } => c[k] == ContentView::Output(text@),
                ContentItem::Other(text) => c[k] == ContentView::Other(text@),
            }),
            ResponseItem::Reasoning { id, summary, content, encrypted_content } => items_view(
                items@,
            )[i] matches ItemView::Reasoning {
                id: a,
                summary: b,
                content: c,
                encrypted_content: d,
            } && a == id@ && b == texts(summary@) && d == opt_text(encrypted_content) && match content {
                Some(pieces) => c matches Some(seen) && seen.len() == pieces@.len() && (0 <= k
                    < pieces@.len() ==> match pieces@[k] {
                    ReasoningItemContent::ReasoningText { text } => seen[k]
                        == ReasoningView::Reasoning(text@),
                    ReasoningItemContent::Other(text) => seen[k] == ReasoningView::Other(text@),
                }),
                None => c is None,
            },
            ResponseItem::Other(text) => items_view(items@)[i] == ItemView::Other(text@),
        },
{
}

} // verus!
