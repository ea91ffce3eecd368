//! What holds of the decoder, whatever it reads.

use vstd::prelude::*;

use crate::cbor::cbor_decoder::{
    collapsed, delivered, extended, items_json, leaf_json, map_entry_json, run, stepped, CborPos,
    CollectionView,
};
use crate::cbor::token::{ExtendedTokenView, TokenView};
use crate::value::Json;

verus! {

/// An extended position keeps its offset and covers what it was; it covers the
/// added position too, where that does not start before it. Extending by the
/// same position again changes nothing.
pub proof fn extended_covers_both(struct_pos: CborPos, value_pos: CborPos)
    requires
        struct_pos.wf(),
        value_pos.wf(),
    ensures
        extended(struct_pos, value_pos).wf(),
        extended(struct_pos, value_pos).offset == struct_pos.offset,
        extended(struct_pos, value_pos).covers(struct_pos),
        struct_pos.offset <= value_pos.offset ==> extended(struct_pos, value_pos).covers(value_pos),
        extended(extended(struct_pos, value_pos), value_pos) == extended(struct_pos, value_pos),
        extended(struct_pos, value_pos).end() == if value_pos.end() > struct_pos.end() {
            value_pos.end()
        } else {
            struct_pos.end()
        },
{
}

/// A finished collection takes no value and no break.
pub proof fn finished_refuses(
    collection: CollectionView,
    value: Json,
    pos: CborPos,
    finalizer: bool,
)
    requires
        collection.finished(),
    ensures
        collection.added(value, pos, finalizer) is Err,
{
}

/// Whether the elements or entries of an array or a map are held in an array.
pub open spec fn holds_array(collection: CollectionView) -> bool {
    match collection {
        CollectionView::Array { values, .. } => values is Array,
        CollectionView::Mapping { values, .. } => values is Array,
        _ => true,
    }
}

/// A collection that is not finished takes every value and every break, and has
/// a JSON object afterwards. It stays well-formed, and where it starts does not
/// change.
pub proof fn unfinished_accepts(
    collection: CollectionView,
    value: Json,
    pos: CborPos,
    finalizer: bool,
)
    requires
        !collection.finished(),
        holds_array(collection),
    ensures
        collection.added(value, pos, finalizer) matches Ok(next) && {
            &&& next.value() is Ok
            &&& holds_array(next)
            &&& next.first_pos() == collection.first_pos()
            &&& (collection.wf() && pos.wf() ==> next.wf())
        },
{
    let next = collection.added(value, pos, finalizer)->Ok_0;
    if collection.wf() && pos.wf() {
        assert(next.wf());
    }
}

/// The number of elements or entries that a token declares, if it declares one.
pub open spec fn declared(token: TokenView) -> Option<u64> {
    match token {
        TokenView::Array(len) => Some(len),
        TokenView::MapOf(len) => Some(len),
        _ => None,
    }
}

/// A collection is finished from the start exactly if it declares to be empty. A
/// declared length has to fit the machine.
pub proof fn only_empty_collections_start_finished(token: ExtendedTokenView)
    requires
        declared(token.token) matches Some(len) ==> len <= usize::MAX,
    ensures
        CollectionView::started(token) matches Some(started) ==> (started.finished() <==> declared(
            token.token,
        ) == Some(0u64)),
{
}

/// A definite array is finished after exactly as many values as it declares.
pub proof fn array_counts_values(
    values: Json,
    length: usize,
    count: nat,
    pos: CborPos,
    full: CborPos,
    value: Json,
    value_pos: CborPos,
)
    requires
        count < length,
        values is Array,
    ensures
        ({
            let array = CollectionView::Array { values, length: Some(length), count, pos, full };
            &&& !array.finished()
            &&& array.added(value, value_pos, false) matches Ok(next)
            &&& next.finished() == (count + 1 == length)
        }),
{
}

/// A definite map is finished after exactly as many entries as it declares: a key
/// changes nothing of that, and its value completes the entry.
pub proof fn map_counts_entries(
    values: Json,
    length: usize,
    count: nat,
    pos: CborPos,
    full: CborPos,
    key: Json,
    key_pos: CborPos,
    value: Json,
    value_pos: CborPos,
)
    requires
        count < length,
        values is Array,
    ensures
        ({
            let map = CollectionView::Mapping {
                values,
                key: None,
                length: Some(length),
                count,
                pos,
                full,
            };
            &&& !map.finished()
            &&& map.added(key, key_pos, false) matches Ok(with_key)
            &&& !with_key.finished()
            &&& with_key.added(value, value_pos, false) matches Ok(next)
            &&& next.finished() == (count + 1 == length)
        }),
{
}

/// Collapsing leaves on top a collection that is not finished, and collapsing
/// again changes nothing.
pub proof fn collapsed_is_settled(stack: Seq<CollectionView>)
    ensures
        collapsed(stack) matches Ok(open) ==> {
            &&& collapsed(open) == Ok::<Seq<CollectionView>, Seq<char>>(open)
            &&& (open.len() > 0 ==> !open.last().finished())
            &&& open.len() <= stack.len()
        },
    decreases stack.len(),
{
    if stack.len() > 0 && stack.last().finished() {
        match delivered(
            stack.drop_last(),
            stack.last(),
            "No parent collection to collapse into"@,
        ) {
            Ok(rest) => {
                assert(rest.len() == stack.len() - 1);
                collapsed_is_settled(rest);
            },
            Err(_) => {},
        }
    }
}

/// What every stack between two tokens is: an array of no declared length at the
/// bottom, and above it only the top may be finished.
pub open spec fn sound(stack: Seq<CollectionView>) -> bool {
    &&& stack.len() > 0
    &&& stack[0] matches CollectionView::Array { length, .. } && length is None
    &&& forall|i: int| 0 <= i < stack.len() ==> holds_array(#[trigger] stack[i])
    &&& forall|i: int| 0 <= i < stack.len() - 1 ==> !(#[trigger] stack[i]).finished()
}

/// Replacing the top of a sound stack by what a value made of it.
proof fn settled_top_is_sound(stack: Seq<CollectionView>, top: CollectionView)
    requires
        stack.len() > 0,
        stack[0] matches CollectionView::Array { length, .. } && length is None,
        forall|i: int| 0 <= i < stack.len() ==> holds_array(#[trigger] stack[i]),
        forall|i: int| 0 <= i < stack.len() - 1 ==> !(#[trigger] stack[i]).finished(),
        holds_array(top),
        stack.len() == 1 ==> (top matches CollectionView::Array { length, .. } && length is None),
    ensures
        sound(stack.drop_last().push(top)),
{
    let next = stack.drop_last().push(top);
    assert forall|i: int| 0 <= i < next.len() implies holds_array(#[trigger] next[i]) by {
        if i < next.len() - 1 {
            assert(next[i] == stack[i]);
        }
    }
    assert forall|i: int| 0 <= i < next.len() - 1 implies !(#[trigger] next[i]).finished() by {
        assert(next[i] == stack[i]);
    }
    if stack.len() > 1 {
        assert(next[0] == stack[0]);
    }
}

/// A sound stack collapses without an error, to a sound stack.
pub proof fn sound_collapses(stack: Seq<CollectionView>)
    requires
        sound(stack),
    ensures
        collapsed(stack) matches Ok(open) && sound(open) && !open.last().finished(),
    decreases stack.len(),
{
    if stack.last().finished() {
        let below = stack.drop_last();
        assert(stack.len() > 1);
        assert(!below.last().finished());
        let value = stack.last().value()->Ok_0;
        unfinished_accepts(below.last(), value, stack.last().full_pos(), false);
        let parent = below.last().added(value, stack.last().full_pos(), false)->Ok_0;
        let rest = below.drop_last().push(parent);
        settled_top_is_sound(below, parent);
        sound_collapses(rest);
    }
}

/// Whether only the bottom array is open.
pub open spec fn at_root(stack: Seq<CollectionView>) -> bool {
    collapsed(stack) matches Ok(open) && open.len() == 1
}

/// On a sound stack a token is refused in two cases only: a break where no
/// collection is open, and a scalar that has no JSON value. Every other token
/// leads to a sound stack.
pub proof fn step_refuses_only(stack: Seq<CollectionView>, token: ExtendedTokenView)
    requires
        sound(stack),
    ensures
        ({
            let pos = CborPos { offset: token.offset, length: token.length };
            match stepped(stack, token) {
                Ok(next) => {
                    &&& sound(next)
                    &&& !(token.token == TokenView::Break && at_root(stack))
                    &&& (token.token.starts_collection() || leaf_json(token.token, pos) is Ok)
                },
                Err(message) => {
                    ||| token.token == TokenView::Break && at_root(stack) && message
                        == "No parent collection found"@
                    ||| !token.token.starts_collection() && leaf_json(token.token, pos) == Err::<
                        Json,
                        Seq<char>,
                    >(message)
                },
            }
        }),
{
    sound_collapses(stack);
    let open = collapsed(stack)->Ok_0;
    let pos = CborPos { offset: token.offset, length: token.length };
    if token.token.starts_collection() {
        let next = open.push(CollectionView::started(token)->0);
        assert forall|i: int| 0 <= i < next.len() implies holds_array(#[trigger] next[i]) by {
            if i < open.len() {
                assert(next[i] == open[i]);
            }
        }
        assert forall|i: int| 0 <= i < next.len() - 1 implies !(#[trigger] next[i]).finished() by {
            assert(next[i] == open[i]);
        }
        assert(next[0] == open[0]);
    } else if leaf_json(token.token, pos) is Ok {
        let value = leaf_json(token.token, pos)->Ok_0;
        let finalizer = token.token == TokenView::Break;
        unfinished_accepts(open.last(), value, pos, finalizer);
        let last = open.last().added(value, pos, finalizer)->Ok_0;
        let below = open.drop_last();
        if finalizer {
            if below.len() > 0 {
                assert(below.last() == open[open.len() - 2]);
                let object = last.value()->Ok_0;
                unfinished_accepts(below.last(), object, last.full_pos(), false);
                let parent = below.last().added(object, last.full_pos(), false)->Ok_0;
                settled_top_is_sound(below, parent);
            }
        } else {
            settled_top_is_sound(open, last);
        }
    }
}

/// What a decoded item or a fault is.
pub type TokenItem = Result<ExtendedTokenView, Seq<char>>;

/// The reasons for which `items` can be refused with `message` while they are
/// taken in: a fault among them, a scalar that has no JSON value, or a break
/// where no collection is open.
pub open spec fn refuses(items: Seq<TokenItem>, message: Seq<char>) -> bool {
    ||| message == "No parent collection found"@
    ||| exists|i: int| 0 <= i < items.len() && #[trigger] refused_at(items, i, message)
}

/// Whether `message` is that of the fault, or of the scalar, at index `i`.
pub open spec fn refused_at(items: Seq<TokenItem>, i: int, message: Seq<char>) -> bool {
    match items[i] {
        Err(fault) => message == "Failed to decode CBOR token: "@ + fault,
        Ok(token) => {
            &&& !token.token.starts_collection()
            &&& leaf_json(
                token.token,
                CborPos { offset: token.offset, length: token.length },
            ) == Err::<Json, Seq<char>>(message)
        },
    }
}

/// From a sound stack, tokens are refused for these reasons only, and lead to a
/// sound stack otherwise.
pub proof fn run_refuses_only(stack: Seq<CollectionView>, items: Seq<TokenItem>)
    requires
        sound(stack),
    ensures
        match run(stack, items) {
            Ok(next) => sound(next) && forall|i: int|
                0 <= i < items.len() ==> (#[trigger] items[i]) is Ok,
            Err(message) => refuses(items, message),
        },
    decreases items.len(),
{
    if items.len() > 0 {
        match items[0] {
            Err(fault) => {
                assert(refused_at(items, 0, "Failed to decode CBOR token: "@ + fault));
            },
            Ok(token) => {
                step_refuses_only(stack, token);
                match stepped(stack, token) {
                    Err(message) => {
                        if message != "No parent collection found"@ {
                            assert(refused_at(items, 0, message));
                        }
                    },
                    Ok(next) => {
                        let rest = items.drop_first();
                        run_refuses_only(next, rest);
                        match run(next, rest) {
                            Ok(_) => {
                                assert forall|i: int| 0 <= i < items.len() implies (
                                #[trigger] items[i]) is Ok by {
                                    if i > 0 {
                                        assert(items[i] == rest[i - 1]);
                                    }
                                }
                            },
                            Err(message) => {
                                if message != "No parent collection found"@ {
                                    let i = choose|i: int|
                                        0 <= i < rest.len() && #[trigger] refused_at(
                                            rest,
                                            i,
                                            message,
                                        );
                                    assert(refused_at(items, i + 1, message));
                                }
                            },
                        }
                    },
                }
            },
        }
    }
}

/// Decoding gives an array, or one of four errors: a fault in the input, a
/// scalar without a JSON value, a break where no collection is open, and an end
/// of the input inside a collection. No value is ever refused because its
/// collection is full.
pub proof fn decoding_refuses_only(items: Seq<TokenItem>)
    ensures
        match items_json(items) {
            Ok(value) => value is Array && forall|i: int|
                0 <= i < items.len() ==> (#[trigger] items[i]) is Ok,
            Err(message) => refuses(items, message) || message
                == "Invalid CBOR: unexpected extra collections"@,
        },
{
    let root = seq![CollectionView::root()];
    assert(sound(root));
    run_refuses_only(root, items);
    if let Ok(stack) = run(root, items) {
        sound_collapses(stack);
    }
}

/// A CBOR data item as a tree of tokens: a scalar, or the token that starts a
/// collection, the items in it (in a map, keys and values in turn), and the
/// break that ends it, if it has one.
pub enum Item {
    Leaf(ExtendedTokenView),
    Node { head: ExtendedTokenView, children: Seq<Item>, end: Option<ExtendedTokenView> },
}

/// The position of a token.
pub open spec fn token_pos(token: ExtendedTokenView) -> CborPos {
    CborPos { offset: token.offset, length: token.length }
}

/// Whether a collection that `head` starts is complete with that many items in it
/// and that end: as many as declared and no break, or, where no number is
/// declared, a break; no key of a map without its value.
pub open spec fn complete_with(
    head: TokenView,
    children: nat,
    end: Option<ExtendedTokenView>,
) -> bool {
    match head {
        TokenView::Array(n) => n <= usize::MAX && children == n && end is None,
        TokenView::MapOf(n) => n <= usize::MAX && children == 2 * n && end is None,
        TokenView::Tag(_) => children == 1 && end is None,
        TokenView::BeginArray | TokenView::BeginString | TokenView::BeginBytes => {
            end matches Some(token) && token.token == TokenView::Break
        },
        TokenView::BeginMap => {
            &&& children % 2 == 0
            &&& end matches Some(token)
            &&& token.token == TokenView::Break
        },
        _ => false,
    }
}

/// Whether every collection of the item is complete, and every scalar has a JSON
/// value.
pub open spec fn complete(item: Item) -> bool
    decreases item,
{
    match item {
        Item::Leaf(token) => {
            &&& !token.token.starts_collection()
            &&& token.token != TokenView::Break
            &&& leaf_json(token.token, token_pos(token)) is Ok
        },
        Item::Node { head, children, end } => {
            &&& complete_with(head.token, children.len(), end)
            &&& forall|i: int| 0 <= i < children.len() ==> complete(#[trigger] children[i])
        },
    }
}

/// The sequences of a sequence, one behind the other.
pub open spec fn joined(parts: Seq<Seq<TokenItem>>) -> Seq<TokenItem>
    decreases parts.len(),
{
    if parts.len() == 0 {
        Seq::empty()
    } else {
        joined(parts.drop_last()) + parts.last()
    }
}

/// The tokens that spell an item.
pub open spec fn item_tokens(item: Item) -> Seq<TokenItem>
    decreases item, 1int,
{
    match item {
        Item::Leaf(token) => seq![Ok(token)],
        Item::Node { head, end, .. } => {
            seq![Ok(head)] + joined(inner_tokens(item)) + end_tokens(end)
        },
    }
}

/// The tokens of each item in a collection.
pub open spec fn inner_tokens(item: Item) -> Seq<Seq<TokenItem>>
    decreases item, 0int,
{
    match item {
        Item::Leaf(_) => Seq::empty(),
        Item::Node { children, .. } => Seq::new(
            children.len(),
            |i: int|
                if 0 <= i < children.len() {
                    item_tokens(children[i])
                } else {
                    Seq::empty()
                },
        ),
    }
}

/// The token that ends a collection, if it has one.
pub open spec fn end_tokens(end: Option<ExtendedTokenView>) -> Seq<TokenItem> {
    match end {
        Some(token) => seq![Ok(token)],
        None => Seq::empty(),
    }
}

/// The tokens of each of several items.
pub open spec fn tokens_of(items: Seq<Item>) -> Seq<Seq<TokenItem>> {
    Seq::new(items.len(), |i: int| item_tokens(items[i]))
}

/// `pos`, prolonged to reach the end of each of `positions`.
pub open spec fn spanned(pos: CborPos, positions: Seq<CborPos>) -> CborPos
    decreases positions.len(),
{
    if positions.len() == 0 {
        pos
    } else {
        extended(spanned(pos, positions.drop_last()), positions.last())
    }
}

/// A prolonged position keeps its offset and ends where the last of all of them
/// ends.
pub proof fn spanned_reaches(pos: CborPos, positions: Seq<CborPos>)
    requires
        pos.wf(),
        forall|i: int| 0 <= i < positions.len() ==> (#[trigger] positions[i]).wf(),
    ensures
        spanned(pos, positions).wf(),
        spanned(pos, positions).offset == pos.offset,
        spanned(pos, positions).end() >= pos.end(),
        forall|i: int|
            0 <= i < positions.len() ==> spanned(pos, positions).end() >= (
            #[trigger] positions[i]).end(),
        spanned(pos, positions).end() == pos.end() || exists|i: int|
            0 <= i < positions.len() && spanned(pos, positions).end() == (
            #[trigger] positions[i]).end(),
    decreases positions.len(),
{
    if positions.len() > 0 {
        let fewer = positions.drop_last();
        let shorter = spanned(pos, fewer);
        assert forall|i: int| 0 <= i < fewer.len() implies (#[trigger] fewer[i]).wf() by {
            assert(fewer[i] == positions[i]);
        }
        spanned_reaches(pos, fewer);
        let whole = spanned(pos, positions);
        assert forall|i: int| 0 <= i < positions.len() implies whole.end() >= (
        #[trigger] positions[i]).end() by {
            if i < fewer.len() {
                assert(fewer[i] == positions[i]);
            }
        }
        if whole.end() != pos.end() {
            if positions.last().end() > shorter.end() {
                assert(whole.end() == positions[positions.len() - 1].end());
            } else {
                let i = choose|i: int|
                    0 <= i < fewer.len() && shorter.end() == (#[trigger] fewer[i]).end();
                assert(whole.end() == positions[i].end());
            }
        }
    }
}

/// The collection that `head` starts, with the first `k` of `parts` in it: the
/// JSON values and positions of items. Only the values of a map, not its keys,
/// prolong its position.
#[verifier::opaque]
pub open spec fn filled(
    head: ExtendedTokenView,
    parts: Seq<(Json, CborPos)>,
    k: nat,
) -> CollectionView {
    let pos = token_pos(head);
    let values = Seq::new(k, |i: int| parts[i].0);
    let full = spanned(pos, Seq::new(k, |i: int| parts[i].1));
    let entries = Seq::new(
        k / 2,
        |i: int| map_entry_json(parts[2 * i].0, parts[2 * i + 1].0),
    );
    let key = if k % 2 == 1 {
        Some(parts[k - 1].0)
    } else {
        None
    };
    let map_full = spanned(pos, Seq::new(k / 2, |i: int| parts[2 * i + 1].1));
    match head.token {
        TokenView::Array(n) => CollectionView::Array {
            values: Json::Array(values),
            length: Some(n as usize),
            count: k,
            pos,
            full,
        },
        TokenView::BeginArray => CollectionView::Array {
            values: Json::Array(values),
            length: None,
            count: k,
            pos,
            full,
        },
        TokenView::MapOf(n) => CollectionView::Mapping {
            values: Json::Array(entries),
            key,
            length: Some(n as usize),
            count: k / 2,
            pos,
            full: map_full,
        },
        TokenView::BeginMap => CollectionView::Mapping {
            values: Json::Array(entries),
            key,
            length: None,
            count: k / 2,
            pos,
            full: map_full,
        },
        TokenView::Tag(tag) => CollectionView::Tag {
            value: if k == 0 {
                None
            } else {
                Some(parts[0].0)
            },
            tag,
            pos,
            full,
        },
        TokenView::BeginString => CollectionView::IndefiniteString { chunks: values, pos, full },
        _ => CollectionView::IndefiniteBytes { chunks: values, pos, full },
    }
}

/// A collection after its break, if it has one.
pub open spec fn ended(
    collection: CollectionView,
    end: Option<ExtendedTokenView>,
) -> CollectionView {
    match end {
        Some(token) => collection.added(
            leaf_json(token.token, token_pos(token))->Ok_0,
            token_pos(token),
            true,
        )->Ok_0,
        None => collection,
    }
}

/// The JSON value of an item, and the position of all of it.
pub open spec fn decoded(item: Item) -> (Json, CborPos)
    decreases item, 1int,
{
    match item {
        Item::Leaf(token) => (
            leaf_json(token.token, token_pos(token))->Ok_0,
            token_pos(token),
        ),
        Item::Node { head, children, end } => {
            let collection = ended(filled(head, inner_decoded(item), children.len()), end);
            (collection.value()->Ok_0, collection.full_pos())
        },
    }
}

/// The JSON value and the position of each item in a collection.
pub open spec fn inner_decoded(item: Item) -> Seq<(Json, CborPos)>
    decreases item, 0int,
{
    match item {
        Item::Leaf(_) => Seq::empty(),
        Item::Node { head, children, .. } => Seq::new(
            children.len(),
            |i: int|
                if 0 <= i < children.len() {
                    decoded(children[i])
                } else {
                    (Json::Null, token_pos(head))
                },
        ),
    }
}

/// The JSON values and positions of several items.
pub open spec fn decoded_all(items: Seq<Item>) -> Seq<(Json, CborPos)> {
    Seq::new(items.len(), |i: int| decoded(items[i]))
}

/// Whether `items` lead from `stack` to a stack that collapses as `next` does.
#[verifier::opaque]
spec fn leads(
    stack: Seq<CollectionView>,
    items: Seq<TokenItem>,
    next: Seq<CollectionView>,
) -> bool {
    run(stack, items) matches Ok(reached) && collapsed(reached) == collapsed(next)
}

/// Taking in `first` and then `second` is taking in both.
pub proof fn run_composes(
    stack: Seq<CollectionView>,
    first: Seq<TokenItem>,
    second: Seq<TokenItem>,
)
    ensures
        run(stack, first + second) == match run(stack, first) {
            Ok(next) => run(next, second),
            Err(message) => Err(message),
        },
    decreases first.len(),
{
    let both = first + second;
    if first.len() == 0 {
        assert(both =~= second);
    } else {
        assert(both[0] == first[0]);
        assert(both.drop_first() =~= first.drop_first() + second);
        if let Ok(token) = first[0] {
            if let Ok(next) = stepped(stack, token) {
                run_composes(next, first.drop_first(), second);
            }
        }
    }
}

proof fn leads_on(
    stack: Seq<CollectionView>,
    first: Seq<TokenItem>,
    middle: Seq<CollectionView>,
    second: Seq<TokenItem>,
    next: Seq<CollectionView>,
)
    requires
        leads(stack, first, middle),
        leads(middle, second, next),
    ensures
        leads(stack, first + second, next),
{
    reveal(leads);
    run_composes(stack, first, second);
    let reached = run(stack, first)->Ok_0;
    if second.len() > 0 {
        assert(run(reached, second) == run(middle, second));
    }
}

/// A part added to a collection that holds the first `k` makes it hold `k + 1`.
proof fn filled_grows(
    head: ExtendedTokenView,
    parts: Seq<(Json, CborPos)>,
    k: nat,
    end: Option<ExtendedTokenView>,
)
    requires
        k < parts.len(),
        complete_with(head.token, parts.len(), end),
    ensures
        !filled(head, parts, k).finished(),
        holds_array(filled(head, parts, k)),
        filled(head, parts, k).added(parts[k as int].0, parts[k as int].1, false) == Ok::<
            CollectionView,
            Seq<char>,
        >(filled(head, parts, k + 1)),
{
    reveal(filled);
    let part = parts[k as int];
    let values = Seq::new(k, |i: int| parts[i].0);
    assert(Seq::new(k + 1, |i: int| parts[i].0) =~= values.push(part.0));
    let positions = Seq::new(k, |i: int| parts[i].1);
    assert(Seq::new(k + 1, |i: int| parts[i].1) =~= positions.push(part.1));
    assert(positions.push(part.1).drop_last() =~= positions);
    let entries = Seq::new(
        k / 2,
        |i: int| map_entry_json(parts[2 * i].0, parts[2 * i + 1].0),
    );
    let more_entries = Seq::new(
        (k + 1) / 2,
        |i: int| map_entry_json(parts[2 * i].0, parts[2 * i + 1].0),
    );
    let odd = Seq::new(k / 2, |i: int| parts[2 * i + 1].1);
    let more_odd = Seq::new((k + 1) / 2, |i: int| parts[2 * i + 1].1);
    if k % 2 == 1 {
        assert(2 * (k / 2) + 1 == k);
        assert(more_entries =~= entries.push(map_entry_json(parts[k - 1].0, part.0)));
        assert(more_odd =~= odd.push(part.1));
        assert(odd.push(part.1).drop_last() =~= odd);
    } else {
        assert(more_entries =~= entries);
        assert(more_odd =~= odd);
    }
}

/// The first `k` items inside a collection fill it with their values.
proof fn children_lead(base: Seq<CollectionView>, item: Item, k: nat)
    requires
        complete(item),
        item matches Item::Node { children, .. } && k <= children.len(),
    ensures
        ({
            let head = item->head;
            let children = item->children;
            leads(
                base.push(filled(head, decoded_all(children), 0)),
                joined(tokens_of(children).take(k as int)),
                base.push(filled(head, decoded_all(children), k)),
            )
        }),
    decreases item, 0int, k,
{
    let head = item->head;
    let children = item->children;
    let parts = decoded_all(children);
    let start = base.push(filled(head, parts, 0));
    if k == 0 {
        reveal(leads);
        assert(joined(tokens_of(children).take(0)) =~= Seq::empty());
    } else {
        let j = (k - 1) as nat;
        children_lead(base, item, j);
        filled_grows(head, parts, j, item->end);
        let child = children[j as int];
        assert(complete(child));
        assert(decoded(child) == parts[j as int]);
        item_leads(base, filled(head, parts, j), child);
        leads_on(
            start,
            joined(tokens_of(children).take(j as int)),
            base.push(filled(head, parts, j)),
            item_tokens(child),
            base.push(filled(head, parts, k)),
        );
        assert(tokens_of(children).take(k as int).drop_last() =~= tokens_of(children).take(
            j as int,
        ));
        assert(tokens_of(children).take(k as int).last() == item_tokens(child));
    }
}

/// A stack whose top is not finished is as collapsed as it can be.
proof fn unfinished_stays(base: Seq<CollectionView>, top: CollectionView)
    requires
        !top.finished(),
    ensures
        collapsed(base.push(top)) == Ok::<Seq<CollectionView>, Seq<char>>(base.push(top)),
        base.push(top).drop_last() == base,
{
    assert(base.push(top).drop_last() =~= base);
}

/// One token that leads from a stack to another.
proof fn token_leads(
    stack: Seq<CollectionView>,
    token: ExtendedTokenView,
    next: Seq<CollectionView>,
)
    requires
        stepped(stack, token) == Ok::<Seq<CollectionView>, Seq<char>>(next),
    ensures
        leads(stack, seq![Ok(token)], next),
{
    reveal(leads);
    let tokens: Seq<TokenItem> = seq![Ok(token)];
    assert(tokens.drop_first() =~= Seq::empty());
    assert(run(next, tokens.drop_first()) == Ok::<Seq<CollectionView>, Seq<char>>(next));
}

proof fn head_leads(
    base: Seq<CollectionView>,
    top: CollectionView,
    head: ExtendedTokenView,
    parts: Seq<(Json, CborPos)>,
    end: Option<ExtendedTokenView>,
)
    requires
        !top.finished(),
        complete_with(head.token, parts.len(), end),
    ensures
        leads(base.push(top), seq![Ok(head)], base.push(top).push(filled(head, parts, 0))),
{
    reveal(filled);
    unfinished_stays(base, top);
    assert(Seq::new(0, |i: int| parts[i].0) =~= Seq::empty());
    assert(Seq::new(0, |i: int| parts[i].1) =~= Seq::empty());
    assert(Seq::new(0, |i: int| map_entry_json(parts[2 * i].0, parts[2 * i + 1].0))
        =~= Seq::empty());
    assert(Seq::new(0, |i: int| parts[2 * i + 1].1) =~= Seq::empty());
    assert(CollectionView::started(head) == Some(filled(head, parts, 0)));
    token_leads(base.push(top), head, base.push(top).push(filled(head, parts, 0)));
}

proof fn end_leads(
    base: Seq<CollectionView>,
    top: CollectionView,
    head: ExtendedTokenView,
    parts: Seq<(Json, CborPos)>,
    end: Option<ExtendedTokenView>,
)
    requires
        !top.finished(),
        holds_array(top),
        complete_with(head.token, parts.len(), end),
    ensures
        ({
            let collection = ended(filled(head, parts, parts.len()), end);
            leads(
                base.push(top).push(filled(head, parts, parts.len())),
                end_tokens(end),
                base.push(
                    top.added(collection.value()->Ok_0, collection.full_pos(), false)->Ok_0,
                ),
            )
        }),
{
    reveal(filled);
    reveal(leads);
    let full = filled(head, parts, parts.len());
    let stack = base.push(top);
    let collection = ended(full, end);
    unfinished_accepts(top, collection.value()->Ok_0, collection.full_pos(), false);
    let grown = base.push(top.added(collection.value()->Ok_0, collection.full_pos(), false)->Ok_0);
    assert(stack.drop_last() =~= base);
    assert(stack.push(full).drop_last() =~= stack);
    match end {
        Some(token) => {
            unfinished_stays(stack, full);
            unfinished_accepts(
                full,
                leaf_json(token.token, token_pos(token))->Ok_0,
                token_pos(token),
                true,
            );
            assert(CollectionView::started(token) is None);
            assert(delivered(stack, collection, "No parent collection found"@) == Ok::<
                Seq<CollectionView>,
                Seq<char>,
            >(grown));
            token_leads(stack.push(full), token, grown);
        },
        None => {
            assert(full.finished());
            assert(delivered(stack, full, "No parent collection to collapse into"@) == Ok::<
                Seq<CollectionView>,
                Seq<char>,
            >(grown));
            assert(collapsed(stack.push(full)) == collapsed(grown));
        },
    }
}

/// The tokens and the value of a collection are those of what is in it, between
/// its start and its end.
proof fn node_parts(head: ExtendedTokenView, children: Seq<Item>, end: Option<ExtendedTokenView>)
    ensures
        ({
            let item = Item::Node { head, children, end };
            let collection = ended(filled(head, decoded_all(children), children.len()), end);
            &&& item_tokens(item) == seq![Ok(head)] + joined(tokens_of(children)) + end_tokens(end)
            &&& decoded(item) == (collection.value()->Ok_0, collection.full_pos())
        }),
{
    let item = Item::Node { head, children, end };
    assert(inner_tokens(item) =~= tokens_of(children));
    assert(inner_decoded(item) =~= decoded_all(children));
}

/// The tokens of a complete item add its value to the collection on top.
proof fn item_leads(base: Seq<CollectionView>, top: CollectionView, item: Item)
    requires
        complete(item),
        !top.finished(),
        holds_array(top),
    ensures
        leads(
            base.push(top),
            item_tokens(item),
            base.push(top.added(decoded(item).0, decoded(item).1, false)->Ok_0),
        ),
    decreases item, 1int, 0nat,
{
    let stack = base.push(top);
    let grown = base.push(top.added(decoded(item).0, decoded(item).1, false)->Ok_0);
    match item {
        Item::Leaf(token) => {
            unfinished_stays(base, top);
            unfinished_accepts(top, decoded(item).0, decoded(item).1, false);
            token_leads(stack, token, grown);
        },
        Item::Node { head, children, end } => {
            let parts = decoded_all(children);
            let n = children.len();
            let first: Seq<TokenItem> = seq![Ok(head)];
            let inner = joined(tokens_of(children));
            let full = stack.push(filled(head, parts, n));
            node_parts(head, children, end);
            head_leads(base, top, head, parts, end);
            children_lead(stack, item, n);
            assert(tokens_of(children).take(n as int) =~= tokens_of(children));
            leads_on(stack, first, stack.push(filled(head, parts, 0)), inner, full);
            end_leads(base, top, head, parts, end);
            leads_on(stack, first + inner, full, end_tokens(end), grown);
        },
    }
}

/// The tokens of any sequence of complete items decode to the array of the
/// items' JSON values, in order: nothing is lost, added or moved.
pub proof fn complete_items_decode(items: Seq<Item>)
    requires
        forall|i: int| 0 <= i < items.len() ==> complete(#[trigger] items[i]),
    ensures
        items_json(joined(tokens_of(items))) == Ok::<Json, Seq<char>>(
            Json::Array(Seq::new(items.len(), |i: int| decoded(items[i]).0)),
        ),
{
    let head = ExtendedTokenView { token: TokenView::BeginArray, offset: 0, length: 0 };
    let end = ExtendedTokenView { token: TokenView::Break, offset: 0, length: 0 };
    let whole = Item::Node { head, children: items, end: Some(end) };
    let parts = decoded_all(items);
    let base = Seq::<CollectionView>::empty();
    let n = items.len();
    reveal(filled);
    reveal(leads);
    children_lead(base, whole, n);
    assert(tokens_of(items).take(n as int) =~= tokens_of(items));
    assert(Seq::new(0, |i: int| parts[i].0) =~= Seq::empty());
    assert(Seq::new(0, |i: int| parts[i].1) =~= Seq::empty());
    assert(base.push(filled(head, parts, 0)) =~= seq![CollectionView::root()]);
    assert(Seq::new(n, |i: int| parts[i].0) =~= Seq::new(n, |i: int| decoded(items[i]).0));
}

/// Whether two stacks differ at the bottom alone: there `first` holds `earlier` and then
/// what `second` holds.
spec fn differ_by(
    earlier: Seq<Json>,
    first: Seq<CollectionView>,
    second: Seq<CollectionView>,
) -> bool {
    &&& first.len() == second.len() > 0
    &&& forall|i: int| 1 <= i < first.len() ==> #[trigger] first[i] == second[i]
    &&& first[0] matches CollectionView::Array {
        values: Json::Array(values),
        length: None,
        ..
    } && (second[0] matches CollectionView::Array {
        values: Json::Array(others),
        length: None,
        ..
    } && values == earlier + others)
}

/// What is added to the top leaves the difference as it is.
proof fn top_keeps_difference(
    earlier: Seq<Json>,
    first: Seq<CollectionView>,
    second: Seq<CollectionView>,
    value: Json,
    pos: CborPos,
    finalizer: bool,
)
    requires
        differ_by(earlier, first, second),
    ensures
        match (
            first.last().added(value, pos, finalizer),
            second.last().added(value, pos, finalizer),
        ) {
            (Ok(top), Ok(other)) => {
                &&& differ_by(
                    earlier,
                    first.drop_last().push(top),
                    second.drop_last().push(other),
                )
                &&& first.len() > 1 ==> top == other
            },
            (Err(message), Err(other)) => message == other,
            _ => false,
        },
{
    if first.len() == 1 {
        let values = first[0]->Array_values->Array_0;
        let others = second[0]->Array_values->Array_0;
        assert(values.push(value) =~= earlier + others.push(value));
    } else {
        assert(first.last() == second.last());
        if let Ok(top) = first.last().added(value, pos, finalizer) {
            let next = first.drop_last().push(top);
            let other = second.drop_last().push(top);
            assert(next[0] == first[0] && other[0] == second[0]);
            assert forall|i: int| 1 <= i < next.len() implies #[trigger] next[i] == other[i] by {
                if i < next.len() - 1 {
                    assert(first[i] == second[i]);
                }
            }
        }
    }
}

/// Adding a collection to the one below leaves the difference as it is.
proof fn delivery_keeps_difference(
    earlier: Seq<Json>,
    first: Seq<CollectionView>,
    second: Seq<CollectionView>,
    child: CollectionView,
    missing: Seq<char>,
)
    requires
        differ_by(earlier, first, second),
    ensures
        match (delivered(first, child, missing), delivered(second, child, missing)) {
            (Ok(next), Ok(other)) => {
                &&& differ_by(earlier, next, other)
                &&& next.len() == first.len()
            },
            (Err(message), Err(other)) => message == other,
            _ => false,
        },
{
    if let Ok(value) = child.value() {
        top_keeps_difference(earlier, first, second, value, child.full_pos(), false);
    }
}

/// A stack without its top differs as the whole does.
proof fn below_keeps_difference(
    earlier: Seq<Json>,
    first: Seq<CollectionView>,
    second: Seq<CollectionView>,
)
    requires
        differ_by(earlier, first, second),
        first.len() > 1,
    ensures
        differ_by(earlier, first.drop_last(), second.drop_last()),
        first.last() == second.last(),
{
    let (below, other) = (first.drop_last(), second.drop_last());
    assert forall|i: int| 1 <= i < below.len() implies #[trigger] below[i] == other[i] by {
        assert(first[i] == second[i]);
    }
}

/// Collapsing leaves the difference as it is.
proof fn collapse_keeps_difference(
    earlier: Seq<Json>,
    first: Seq<CollectionView>,
    second: Seq<CollectionView>,
)
    requires
        differ_by(earlier, first, second),
    ensures
        match (collapsed(first), collapsed(second)) {
            (Ok(open), Ok(other)) => differ_by(earlier, open, other),
            (Err(message), Err(other)) => message == other,
            _ => false,
        },
    decreases first.len(),
{
    if first.len() > 1 {
        below_keeps_difference(earlier, first, second);
        if first.last().finished() {
            let missing = "No parent collection to collapse into"@;
            let (below, other) = (first.drop_last(), second.drop_last());
            delivery_keeps_difference(earlier, below, other, first.last(), missing);
            if let Ok(next) = delivered(below, first.last(), missing) {
                collapse_keeps_difference(
                    earlier,
                    next,
                    delivered(other, first.last(), missing)->Ok_0,
                );
            }
        }
    }
}

/// A token leaves the difference as it is.
proof fn step_keeps_difference(
    earlier: Seq<Json>,
    first: Seq<CollectionView>,
    second: Seq<CollectionView>,
    token: ExtendedTokenView,
)
    requires
        differ_by(earlier, first, second),
    ensures
        match (stepped(first, token), stepped(second, token)) {
            (Ok(next), Ok(other)) => differ_by(earlier, next, other),
            (Err(message), Err(other)) => message == other,
            _ => false,
        },
{
    collapse_keeps_difference(earlier, first, second);
    if let Ok(open) = collapsed(first) {
        let other = collapsed(second)->Ok_0;
        let pos = token_pos(token);
        match CollectionView::started(token) {
            Some(collection) => {
                let (next, next_other) = (open.push(collection), other.push(collection));
                assert(next[0] == open[0] && next_other[0] == other[0]);
                assert forall|i: int| 1 <= i < next.len() implies #[trigger] next[i]
                    == next_other[i] by {
                    if i < open.len() {
                        assert(open[i] == other[i]);
                    }
                }
            },
            None => {
                if let Ok(value) = leaf_json(token.token, pos) {
                    let finalizer = token.token == TokenView::Break;
                    top_keeps_difference(earlier, open, other, value, pos, finalizer);
                    if finalizer && open.len() > 1 {
                        below_keeps_difference(earlier, open, other);
                        if let Ok(last) = open.last().added(value, pos, true) {
                            delivery_keeps_difference(
                                earlier,
                                open.drop_last(),
                                other.drop_last(),
                                last,
                                "No parent collection found"@,
                            );
                        }
                    }
                }
            },
        }
    }
}

/// Tokens leave the difference as it is.
proof fn run_keeps_difference(
    earlier: Seq<Json>,
    first: Seq<CollectionView>,
    second: Seq<CollectionView>,
    items: Seq<TokenItem>,
)
    requires
        differ_by(earlier, first, second),
    ensures
        match (run(first, items), run(second, items)) {
            (Ok(next), Ok(other)) => differ_by(earlier, next, other),
            (Err(message), Err(other)) => message == other,
            _ => false,
        },
    decreases items.len(),
{
    if items.len() > 0 {
        if let Ok(token) = items[0] {
            step_keeps_difference(earlier, first, second, token);
            if let Ok(next) = stepped(first, token) {
                run_keeps_difference(
                    earlier,
                    next,
                    stepped(second, token)->Ok_0,
                    items.drop_first(),
                );
            }
        }
    }
}

/// Tokens behind tokens that decode are decoded as they are alone: both arrays are
/// joined, or the second is refused with the message that it gets alone.
pub proof fn joined_streams_decode(first: Seq<TokenItem>, second: Seq<TokenItem>)
    requires
        items_json(first) is Ok,
    ensures
        items_json(first + second) == match items_json(second) {
            Ok(value) => Ok(
                Json::Array(items_json(first)->Ok_0->Array_0 + value->Array_0),
            ),
            Err(message) => Err(message),
        },
{
    let root = seq![CollectionView::root()];
    assert(sound(root));
    decoding_refuses_only(first);
    decoding_refuses_only(second);
    run_refuses_only(root, first);
    run_composes(root, first, second);
    let reached = run(root, first)->Ok_0;
    sound_collapses(reached);
    let open = collapsed(reached)->Ok_0;
    let earlier = items_json(first)->Ok_0->Array_0;
    if second.len() == 0 {
        assert(first + second =~= first);
        assert(items_json(second) == Ok::<Json, Seq<char>>(Json::Array(Seq::<Json>::empty())));
        assert(earlier + Seq::<Json>::empty() =~= earlier);
    } else {
        assert(earlier =~= earlier + Seq::<Json>::empty());
        assert(differ_by(earlier, open, root));
        collapsed_is_settled(reached);
        assert(run(reached, second) == run(open, second));
        run_keeps_difference(earlier, open, root, second);
        if let Ok(next) = run(open, second) {
            collapse_keeps_difference(earlier, next, run(root, second)->Ok_0);
        }
    }
}

/// A collection that has begun and is not complete: the token that starts it, and the items
/// in it so far.
pub struct Begun {
    pub head: ExtendedTokenView,
    pub children: Seq<Item>,
}

/// Whether the collection still lacks something: one of the declared items, the value of a
/// tag, or the break.
pub open spec fn lacks_items(begun: Begun) -> bool {
    &&& match begun.head.token {
        TokenView::Array(n) => n <= usize::MAX && begun.children.len() < n,
        TokenView::MapOf(n) => n <= usize::MAX && begun.children.len() < 2 * n,
        TokenView::Tag(_) => begun.children.len() == 0,
        TokenView::BeginArray | TokenView::BeginMap => true,
        TokenView::BeginString | TokenView::BeginBytes => true,
        _ => false,
    }
    &&& forall|i: int| 0 <= i < begun.children.len() ==> complete(#[trigger] begun.children[i])
}

/// The tokens of collections that have begun, each inside the one before.
pub open spec fn begun_tokens(levels: Seq<Begun>) -> Seq<TokenItem>
    decreases levels.len(),
{
    if levels.len() == 0 {
        Seq::empty()
    } else {
        seq![Ok(levels[0].head)] + joined(tokens_of(levels[0].children)) + begun_tokens(
            levels.drop_first(),
        )
    }
}

/// How many items make the collection complete.
spec fn needed(begun: Begun) -> nat {
    match begun.head.token {
        TokenView::Array(n) => n as nat,
        TokenView::MapOf(n) => 2 * n as nat,
        TokenView::Tag(_) => 1,
        _ => 2 * (begun.children.len() + 1),
    }
}

/// A collection that has begun, filled up to a complete one.
spec fn completed(begun: Begun) -> Item {
    let null = ExtendedTokenView { token: TokenView::Null, offset: 0, length: 0 };
    let end = ExtendedTokenView { token: TokenView::Break, offset: 0, length: 0 };
    Item::Node {
        head: begun.head,
        children: Seq::new(
            needed(begun),
            |i: int|
                if i < begun.children.len() {
                    begun.children[i]
                } else {
                    Item::Leaf(null)
                },
        ),
        end: match begun.head.token {
            TokenView::Array(_) | TokenView::MapOf(_) | TokenView::Tag(_) => None,
            _ => Some(end),
        },
    }
}

/// Collections that have begun stay open on the stack.
proof fn begun_stay_open(base: Seq<CollectionView>, top: CollectionView, levels: Seq<Begun>)
    requires
        !top.finished(),
        forall|i: int| 0 <= i < levels.len() ==> lacks_items(#[trigger] levels[i]),
    ensures
        exists|next: Seq<CollectionView>|
            {
                &&& #[trigger] leads(base.push(top), begun_tokens(levels), next)
                &&& next.len() == base.len() + 1 + levels.len()
                &&& !next.last().finished()
            },
    decreases levels.len(),
{
    let stack = base.push(top);
    if levels.len() == 0 {
        reveal(leads);
        assert(leads(stack, begun_tokens(levels), stack));
        assert(stack.last() == top);
    } else {
        let begun = levels[0];
        let rest = levels.drop_first();
        assert(lacks_items(levels[0]));
        let whole = completed(begun);
        let head = begun.head;
        let children = whole->children;
        let end = whole->end;
        let k = begun.children.len();
        let parts = decoded_all(children);
        assert forall|i: int| 0 <= i < children.len() implies complete(#[trigger] children[i]) by {
            if i < k {
                assert(children[i] == begun.children[i]);
            }
        }
        assert(complete_with(head.token, children.len(), end));
        assert(complete(whole));
        head_leads(base, top, head, parts, end);
        children_lead(stack, whole, k);
        filled_grows(head, parts, k, end);
        assert(tokens_of(children).take(k as int) =~= tokens_of(begun.children));
        let inner = filled(head, parts, k);
        let first: Seq<TokenItem> = seq![Ok(head)];
        let inside = joined(tokens_of(begun.children));
        leads_on(stack, first, stack.push(filled(head, parts, 0)), inside, stack.push(inner));
        assert forall|i: int| 0 <= i < rest.len() implies lacks_items(#[trigger] rest[i]) by {
            assert(rest[i] == levels[i + 1]);
        }
        begun_stay_open(stack, inner, rest);
        let next = choose|next: Seq<CollectionView>|
            {
                &&& #[trigger] leads(stack.push(inner), begun_tokens(rest), next)
                &&& next.len() == stack.len() + 1 + rest.len()
                &&& !next.last().finished()
            };
        leads_on(stack, first + inside, stack.push(inner), begun_tokens(rest), next);
        assert(begun_tokens(levels) == first + inside + begun_tokens(rest));
    }
}

/// An input that ends inside a collection is refused, however deep it is and whatever
/// stands before it.
pub proof fn unfinished_input_is_refused(items: Seq<Item>, levels: Seq<Begun>)
    requires
        levels.len() > 0,
        forall|i: int| 0 <= i < items.len() ==> complete(#[trigger] items[i]),
        forall|i: int| 0 <= i < levels.len() ==> lacks_items(#[trigger] levels[i]),
    ensures
        items_json(joined(tokens_of(items)) + begun_tokens(levels)) == Err::<Json, Seq<char>>(
            "Invalid CBOR: unexpected extra collections"@,
        ),
{
    let head = ExtendedTokenView { token: TokenView::BeginArray, offset: 0, length: 0 };
    let end = ExtendedTokenView { token: TokenView::Break, offset: 0, length: 0 };
    let whole = Item::Node { head, children: items, end: Some(end) };
    let parts = decoded_all(items);
    let base = Seq::<CollectionView>::empty();
    let n = items.len();
    let root = seq![CollectionView::root()];
    let top = filled(head, parts, n);
    children_lead(base, whole, n);
    assert(tokens_of(items).take(n as int) =~= tokens_of(items));
    assert(!top.finished() && base.push(filled(head, parts, 0)) == root) by {
        reveal(filled);
        assert(Seq::new(0, |i: int| parts[i].0) =~= Seq::empty());
        assert(Seq::new(0, |i: int| parts[i].1) =~= Seq::empty());
        assert(base.push(filled(head, parts, 0)) =~= root);
    }
    begun_stay_open(base, top, levels);
    let next = choose|next: Seq<CollectionView>|
        {
            &&& #[trigger] leads(base.push(top), begun_tokens(levels), next)
            &&& next.len() == base.len() + 1 + levels.len()
            &&& !next.last().finished()
        };
    leads_on(root, joined(tokens_of(items)), base.push(top), begun_tokens(levels), next);
    reveal(leads);
}

/// A token in a collection that is not finished: a start opens a collection inside it, a
/// break closes it and adds it to the one around it, anything else becomes a value in it.
pub proof fn tokens_act_on_the_innermost_collection(
    base: Seq<CollectionView>,
    around: CollectionView,
    inner: CollectionView,
    token: ExtendedTokenView,
)
    requires
        !inner.finished(),
        !around.finished(),
        holds_array(inner),
        holds_array(around),
        token.token.starts_collection() || leaf_json(token.token, token_pos(token)) is Ok,
    ensures
        ({
            let stack = base.push(around).push(inner);
            let value = leaf_json(token.token, token_pos(token));
            stepped(stack, token) == Ok::<Seq<CollectionView>, Seq<char>>(
                match (CollectionView::started(token), token.token) {
                    (Some(started), _) => stack.push(started),
                    (None, TokenView::Break) => {
                        let closed = inner.added(value->Ok_0, token_pos(token), true)->Ok_0;
                        base.push(
                            around.added(closed.value()->Ok_0, closed.full_pos(), false)->Ok_0,
                        )
                    },
                    _ => base.push(around).push(
                        inner.added(value->Ok_0, token_pos(token), false)->Ok_0,
                    ),
                },
            )
        }),
{
    let stack = base.push(around).push(inner);
    unfinished_stays(base.push(around), inner);
    assert(base.push(around).drop_last() =~= base);
    if CollectionView::started(token) is None {
        let value = leaf_json(token.token, token_pos(token))->Ok_0;
        let finalizer = token.token == TokenView::Break;
        unfinished_accepts(inner, value, token_pos(token), finalizer);
        if finalizer {
            let closed = inner.added(value, token_pos(token), true)->Ok_0;
            unfinished_accepts(around, closed.value()->Ok_0, closed.full_pos(), false);
        }
    }
}

/// A finished collection counts as a value of the one around it before anything else
/// happens.
pub proof fn finished_collections_become_values(
    base: Seq<CollectionView>,
    around: CollectionView,
    inner: CollectionView,
    token: ExtendedTokenView,
)
    requires
        inner.finished(),
        !around.finished(),
        holds_array(around),
    ensures
        ({
            let stack = base.push(around).push(inner);
            let taken_in = base.push(
                around.added(inner.value()->Ok_0, inner.full_pos(), false)->Ok_0,
            );
            &&& collapsed(stack) == collapsed(taken_in)
            &&& stepped(stack, token) == stepped(taken_in, token)
        }),
{
    let stack = base.push(around).push(inner);
    unfinished_accepts(around, inner.value()->Ok_0, inner.full_pos(), false);
    assert(stack.drop_last() =~= base.push(around));
    assert(base.push(around).drop_last() =~= base);
    let taken_in = base.push(around.added(inner.value()->Ok_0, inner.full_pos(), false)->Ok_0);
    assert(delivered(
        stack.drop_last(),
        stack.last(),
        "No parent collection to collapse into"@,
    ) == Ok::<Seq<CollectionView>, Seq<char>>(taken_in));
}

/// A collection is finished exactly if it has counted as much as it declares, or is a tag
/// with a value; nothing of indefinite length finishes without a break.
pub proof fn collections_finish_when_full(collection: CollectionView)
    ensures
        collection.finished() <==> match collection {
            CollectionView::Array { length, count, .. } => length is Some && count >= length->0,
            CollectionView::Mapping { length, count, .. } => length is Some && count >= length->0,
            CollectionView::Tag { value, .. } => !(value is None),
            CollectionView::IndefiniteString { .. } | CollectionView::IndefiniteBytes { .. } => {
                false
            },
        },
{
}

/// Without its metadata a collection is what it holds: an array of it, the value of a tag,
/// or nothing where a tag has none yet.
pub proof fn plain_values_are_the_contents(collection: CollectionView)
    requires
        holds_array(collection),
    ensures
        match collection {
            CollectionView::Tag { value, .. } => collection.simple_value() == match value {
                Some(value) => value,
                None => Json::Null,
            },
            CollectionView::Array { values: Json::Array(elements), .. }
            | CollectionView::Mapping { values: Json::Array(elements), .. } => {
                collection.simple_value() == Json::Array(elements)
            },
            CollectionView::IndefiniteString { chunks, .. }
            | CollectionView::IndefiniteBytes { chunks, .. } => collection.simple_value()
                == Json::Array(chunks),
            _ => false,
        },
{
}

} // verus!
