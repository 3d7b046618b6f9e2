//! The message tree and its flat projection: folders that hold messages and
//! other folders, and the list of messages met on a walk through them.

use vstd::prelude::*;
use crate::document::{
    build, distinct_names, entries_view, find_key, lemma_build_lookup, lemma_find_key, list_view,
    lookup, put_field, DocView, Document,
};
use crate::models::{
    lemma_decode_canonical, lemma_decode_encode, messages_view, MessageConfig, MessageView,
};
use crate::text::{str_eq, texts};

verus! {

/// The messages of a tree in the order of a walk that enters every folder
/// where it meets it. A list stands for its items in turn; a record of type
/// `message` for the message it holds, where that can be read; a record of
/// type `folder` for what its `children` hold; anything else for nothing.
pub open spec fn flatten(node: DocView) -> Seq<MessageView>
    decreases node,
{
    match node {
        DocView::List(items) => flatten_all(items),
        DocView::Record(entries) => match lookup(entries, "type"@) {
            Some(DocView::Text(kind)) => if kind == "message"@ {
                match lookup(entries, "message"@) {
                    Some(m) => match MessageView::decode(m) {
                        Some(message) => seq![message],
                        None => Seq::empty(),
                    },
                    None => Seq::empty(),
                }
            } else if kind == "folder"@ {
                match find_key(entries, "children"@) {
                    Some(i) => if 0 <= i < entries.len() {
                        flatten(entries[i].1)
                    } else {
                        Seq::empty()
                    },
                    None => Seq::empty(),
                }
            } else {
                Seq::empty()
            },
            _ => Seq::empty(),
        },
        _ => Seq::empty(),
    }
}

/// The messages of the trees of a list, one tree after the other.
pub open spec fn flatten_all(items: Seq<DocView>) -> Seq<MessageView>
    decreases items,
{
    if items.len() == 0 {
        Seq::empty()
    } else {
        flatten_all(items.drop_last()) + flatten(items.last())
    }
}

/// The node that holds one message in a tree.
pub open spec fn message_node(message: MessageView) -> DocView {
    DocView::Record(build(node_fields(message)))
}

/// The names under which the node of a message is written, with their values.
pub open spec fn node_fields(message: MessageView) -> Seq<(Seq<char>, Option<DocView>)> {
    seq![
        ("id"@, Some(DocView::Text(message.id))),
        ("message"@, Some(message.encode())),
        ("type"@, Some(DocView::Text("message"@))),
    ]
}

/// The tree without folders that holds the given messages in their order.
pub open spec fn build_flat(messages: Seq<MessageView>) -> DocView {
    DocView::List(Seq::new(messages.len(), |i: int| message_node(messages[i])))
}

/// The ids of the messages under a node, in the order of the walk. Unlike
/// `flatten` this reads only the `id` of each message.
pub open spec fn collect_ids(node: DocView) -> Seq<Seq<char>>
    decreases node,
{
    match node {
        DocView::List(items) => collect_ids_all(items),
        DocView::Record(entries) => match lookup(entries, "type"@) {
            Some(DocView::Text(kind)) => if kind == "message"@ {
                match lookup(entries, "message"@) {
                    Some(m) => match m.get_text("id"@) {
                        Some(id) => seq![id],
                        None => Seq::empty(),
                    },
                    None => Seq::empty(),
                }
            } else if kind == "folder"@ {
                match find_key(entries, "children"@) {
                    Some(i) => if 0 <= i < entries.len() {
                        collect_ids(entries[i].1)
                    } else {
                        Seq::empty()
                    },
                    None => Seq::empty(),
                }
            } else {
                Seq::empty()
            },
            _ => Seq::empty(),
        },
        _ => Seq::empty(),
    }
}

/// The ids of the messages under the nodes of a list.
pub open spec fn collect_ids_all(items: Seq<DocView>) -> Seq<Seq<char>>
    decreases items,
{
    if items.len() == 0 {
        Seq::empty()
    } else {
        collect_ids_all(items.drop_last()) + collect_ids(items.last())
    }
}

/// The first folder with the given id that a walk meets: a folder is looked
/// at before its children, and the children of a folder with another id are
/// searched. Records of another type are not entered.
pub open spec fn find_folder(folder_id: Seq<char>, node: DocView) -> Option<DocView>
    decreases node,
{
    match node {
        DocView::List(items) => find_folder_in(folder_id, items),
        DocView::Record(entries) => match lookup(entries, "type"@) {
            Some(DocView::Text(kind)) => if kind == "folder"@ {
                if lookup(entries, "id"@) == Some(DocView::Text(folder_id)) {
                    Some(node)
                } else {
                    match find_key(entries, "children"@) {
                        Some(i) => if 0 <= i < entries.len() {
                            find_folder(folder_id, entries[i].1)
                        } else {
                            None
                        },
                        None => None,
                    }
                }
            } else {
                None
            },
            _ => None,
        },
        _ => None,
    }
}

/// The first folder with the given id among the nodes of a list.
pub open spec fn find_folder_in(folder_id: Seq<char>, items: Seq<DocView>) -> Option<DocView>
    decreases items,
{
    if items.len() == 0 {
        None
    } else {
        match find_folder_in(folder_id, items.drop_last()) {
            Some(found) => Some(found),
            None => find_folder(folder_id, items.last()),
        }
    }
}

/// The ids of the messages under the first folder with the given id; none
/// where the tree has no such folder.
pub open spec fn folder_message_ids(folder_id: Seq<char>, tree: DocView) -> Seq<Seq<char>> {
    match find_folder(folder_id, tree) {
        Some(folder) => match folder.get("children"@) {
            Some(children) => collect_ids(children),
            None => Seq::empty(),
        },
        None => Seq::empty(),
    }
}

/// One more item at the end of a list adds its messages at the end.
pub proof fn lemma_flatten_all_push(items: Seq<DocView>, item: DocView)
    ensures
        flatten_all(items.push(item)) == flatten_all(items) + flatten(item),
{
    assert(items.push(item).drop_last() =~= items);
}

/// One more item at the end of a list adds its ids at the end.
pub proof fn lemma_collect_ids_all_push(items: Seq<DocView>, item: DocView)
    ensures
        collect_ids_all(items.push(item)) == collect_ids_all(items) + collect_ids(item),
{
    assert(items.push(item).drop_last() =~= items);
}

/// One more item at the end of a list is searched after the others.
pub proof fn lemma_find_folder_in_push(folder_id: Seq<char>, items: Seq<DocView>, item: DocView)
    ensures
        find_folder_in(folder_id, items.push(item)) == (match find_folder_in(folder_id, items) {
            Some(found) => Some(found),
            None => find_folder(folder_id, item),
        }),
{
    assert(items.push(item).drop_last() =~= items);
}

/// Every message that `flatten` returns is in canonical form.
pub proof fn lemma_flatten_canonical(node: DocView)
    ensures
        forall|i: int| 0 <= i < flatten(node).len() ==> (#[trigger] flatten(node)[i]).canonical(),
    decreases node,
{
    match node {
        DocView::List(items) => {
            lemma_flatten_all_canonical(items);
            assert(flatten(node) == flatten_all(items));
        },
        DocView::Record(entries) => {
            match lookup(entries, "type"@) {
                Some(DocView::Text(kind)) => {
                    if kind == "message"@ {
                        match lookup(entries, "message"@) {
                            Some(m) => {
                                lemma_decode_canonical(m);
                                match MessageView::decode(m) {
                                    Some(message) => {
                                        assert(flatten(node) == seq![message]);
                                    },
                                    None => {},
                                }
                            },
                            None => {},
                        }
                    } else if kind == "folder"@ {
                        lemma_find_key(entries, "children"@);
                        match find_key(entries, "children"@) {
                            Some(i) => {
                                lemma_flatten_canonical(entries[i].1);
                                assert(flatten(node) == flatten(entries[i].1));
                            },
                            None => {},
                        }
                    }
                },
                _ => {},
            }
        },
        _ => {},
    }
}

/// Every message that `flatten_all` returns is in canonical form.
pub proof fn lemma_flatten_all_canonical(items: Seq<DocView>)
    ensures
        forall|i: int|
            0 <= i < flatten_all(items).len() ==> (#[trigger] flatten_all(items)[i]).canonical(),
    decreases items,
{
    if items.len() > 0 {
        lemma_flatten_all_canonical(items.drop_last());
        lemma_flatten_canonical(items.last());
        let front = flatten_all(items.drop_last());
        let back = flatten(items.last());
        assert(flatten_all(items) == front + back);
        assert forall|i: int| 0 <= i < flatten_all(items).len() implies (#[trigger] flatten_all(
            items,
        )[i]).canonical() by {
            if i < front.len() {
                assert(flatten_all(items)[i] == front[i]);
            } else {
                assert(flatten_all(items)[i] == back[i - front.len()]);
            }
        }
    }
}

/// The node of a message in canonical form holds exactly that message.
pub proof fn lemma_flatten_message_node(message: MessageView)
    requires
        message.canonical(),
    ensures
        flatten(message_node(message)) == seq![message],
{
    reveal_strlit("id");
    reveal_strlit("message");
    reveal_strlit("type");
    assert("id"@.len() == 2 && "message"@.len() == 7 && "type"@.len() == 4);
    let f = node_fields(message);
    assert(distinct_names(f));
    lemma_build_lookup(f, 1);
    lemma_build_lookup(f, 2);
    lemma_decode_encode(message);
}

/// Building the flat tree of messages in canonical form and flattening it
/// gives the messages back.
pub proof fn lemma_flatten_build_flat(messages: Seq<MessageView>)
    requires
        forall|i: int| 0 <= i < messages.len() ==> (#[trigger] messages[i]).canonical(),
    ensures
        flatten(build_flat(messages)) == messages,
    decreases messages.len(),
{
    let items = build_flat(messages)->List_0;
    assert(flatten(build_flat(messages)) == flatten_all(items));
    if messages.len() == 0 {
        assert(flatten_all(items) =~= messages);
    } else {
        let front = messages.drop_last();
        lemma_flatten_build_flat(front);
        assert(items.drop_last() =~= build_flat(front)->List_0);
        lemma_flatten_message_node(messages.last());
        assert(items.last() == message_node(messages.last()));
        assert(flatten(build_flat(front)) == flatten_all(build_flat(front)->List_0));
        assert(flatten_all(items) == flatten_all(items.drop_last()) + flatten(items.last()));
        assert(front + seq![messages.last()] =~= messages);
    }
}

/// The flat projection is stable: the flat tree built from the messages of
/// any tree has exactly those messages, in the same order.
pub proof fn lemma_flat_projection_stable(tree: DocView)
    ensures
        flatten(build_flat(flatten(tree))) == flatten(tree),
{
    lemma_flatten_canonical(tree);
    lemma_flatten_build_flat(flatten(tree));
}

/// A folder found among the first items of a list is the one found in the
/// whole list.
pub proof fn lemma_find_folder_in_prefix(folder_id: Seq<char>, items: Seq<DocView>, n: int)
    requires
        0 <= n <= items.len(),
        find_folder_in(folder_id, items.take(n)) is Some,
    ensures
        find_folder_in(folder_id, items) == find_folder_in(folder_id, items.take(n)),
    decreases items.len() - n,
{
    if n < items.len() {
        lemma_find_folder_in_push(folder_id, items.take(n), items[n]);
        assert(items.take(n).push(items[n]) =~= items.take(n + 1));
        lemma_find_folder_in_prefix(folder_id, items, n + 1);
    } else {
        assert(items.take(n) =~= items);
    }
}

fn walk(node: &Document, out: &mut Vec<MessageConfig>)
    ensures
        messages_view(final(out)@) == messages_view(old(out)@) + flatten(node@),
    decreases node,
{
    let ghost before = messages_view(out@);
    match node {
        Document::List(items) => {
            let mut i: usize = 0;
            while i < items.len()
                invariant
                    i <= items.len(),
                    *node == Document::List(*items),
                    messages_view(out@) == before + flatten_all(list_view(items@).take(i as int)),
                decreases items.len() - i,
            {
                assert(decreases_to!(node => node->List_0[i as int]));
                proof {
                    let all = list_view(items@);
                    lemma_flatten_all_push(all.take(i as int), all[i as int]);
                    assert(all.take(i as int).push(all[i as int]) =~= all.take(i as int + 1));
                }
                walk(&items[i], out);
                i += 1;
            }
            assert(list_view(items@).take(i as int) =~= list_view(items@));
        },
        Document::Record(entries) => {
            let ghost e = entries_view(entries@);
            match node.get_str("type") {
                Some(kind) => {
                    if str_eq(kind, "message") {
                        match node.get("message") {
                            Some(m) => match MessageConfig::from_document(m) {
                                Some(message) => {
                                    out.push(message);
                                },
                                None => {},
                            },
                            None => {},
                        }
                    } else if str_eq(kind, "folder") {
                        proof {
                            lemma_find_key(e, "children"@);
                        }
                        match node.get("children") {
                            Some(children) => {
                                walk(children, out);
                            },
                            None => {},
                        }
                    }
                },
                None => {},
            }
        },
        _ => {},
    }
}

/// The flat list of the messages of a tree: see [`flatten`].
pub fn flatten_message_tree_value(tree: &Document) -> (messages: Vec<MessageConfig>)
    ensures
        messages_view(messages@) == flatten(tree@),
{
    let mut out: Vec<MessageConfig> = Vec::new();
    walk(tree, &mut out);
    out
}

/// The flat list of the messages of a tree: see [`flatten`].
pub fn flatten_message_tree(tree: &Document) -> (messages: Vec<MessageConfig>)
    ensures
        messages_view(messages@) == flatten(tree@),
{
    flatten_message_tree_value(tree)
}

/// The tree without folders that holds the given messages in their order.
pub fn build_flat_message_tree(messages: &Vec<MessageConfig>) -> (tree: Document)
    ensures
        tree@ == build_flat(messages_view(messages@)),
{
    let mut nodes: Vec<Document> = Vec::new();
    let mut i: usize = 0;
    while i < messages.len()
        invariant
            i <= messages.len(),
            nodes@.len() == i,
            forall|j: int| 0 <= j < i ==> (#[trigger] nodes@[j])@ == message_node(messages@[j]@),
        decreases messages.len() - i,
    {
        let m = &messages[i];
        let mut e: Vec<(String, Document)> = Vec::new();
        let ghost mut f: Seq<(Seq<char>, Option<DocView>)> = Seq::empty();
        assert(entries_view(e@) =~= build(f));
        put_field(&mut e, Ghost(f), "id", Some(Document::Text(m.id.clone())));
        proof {
            f = f.push(("id"@, Some(DocView::Text(m.id@))));
        }
        put_field(&mut e, Ghost(f), "message", Some(m.to_document()));
        proof {
            f = f.push(("message"@, Some(m@.encode())));
        }
        put_field(&mut e, Ghost(f), "type", Some(Document::text("message")));
        proof {
            f = f.push(("type"@, Some(DocView::Text("message"@))));
            assert(f =~= node_fields(m@));
        }
        nodes.push(Document::Record(e));
        i += 1;
    }
    assert(list_view(nodes@) =~= build_flat(messages_view(messages@))->List_0);
    Document::List(nodes)
}

fn find_folder_node<'a>(folder_id: &str, node: &'a Document) -> (found: Option<&'a Document>)
    ensures
        match found {
            Some(folder) => find_folder(folder_id@, node@) == Some(folder@),
            None => find_folder(folder_id@, node@) is None,
        },
    decreases node,
{
    match node {
        Document::List(items) => {
            let mut i: usize = 0;
            while i < items.len()
                invariant
                    i <= items.len(),
                    *node == Document::List(*items),
                    find_folder_in(folder_id@, list_view(items@).take(i as int)) is None,
                decreases items.len() - i,
            {
                proof {
                    let all = list_view(items@);
                    lemma_find_folder_in_push(folder_id@, all.take(i as int), all[i as int]);
                    assert(all.take(i as int).push(all[i as int]) =~= all.take(i as int + 1));
                }
                match find_folder_node(folder_id, &items[i]) {
                    Some(folder) => {
                        proof {
                            lemma_find_folder_in_prefix(
                                folder_id@,
                                list_view(items@),
                                i as int + 1,
                            );
                        }
                        return Some(folder);
                    },
                    None => {},
                }
                i += 1;
            }
            assert(list_view(items@).take(i as int) =~= list_view(items@));
            None
        },
        Document::Record(entries) => {
            let ghost e = entries_view(entries@);
            match node.get_str("type") {
                Some(kind) => {
                    if str_eq(kind, "folder") {
                        let same = match node.get_str("id") {
                            Some(id) => str_eq(id, folder_id),
                            None => false,
                        };
                        if same {
                            Some(node)
                        } else {
                            proof {
                                lemma_find_key(e, "children"@);
                            }
                            match node.get("children") {
                                Some(children) => find_folder_node(folder_id, children),
                                None => None,
                            }
                        }
                    } else {
                        None
                    }
                },
                None => None,
            }
        },
        _ => None,
    }
}

fn collect_ids_into(node: &Document, ids: &mut Vec<String>)
    ensures
        texts(final(ids)@) == texts(old(ids)@) + collect_ids(node@),
    decreases node,
{
    let ghost before = texts(ids@);
    match node {
        Document::List(items) => {
            let mut i: usize = 0;
            while i < items.len()
                invariant
                    i <= items.len(),
                    *node == Document::List(*items),
                    texts(ids@) == before + collect_ids_all(list_view(items@).take(i as int)),
                decreases items.len() - i,
            {
                assert(decreases_to!(node => node->List_0[i as int]));
                proof {
                    let all = list_view(items@);
                    lemma_collect_ids_all_push(all.take(i as int), all[i as int]);
                    assert(all.take(i as int).push(all[i as int]) =~= all.take(i as int + 1));
                }
                collect_ids_into(&items[i], ids);
                i += 1;
            }
            assert(list_view(items@).take(i as int) =~= list_view(items@));
        },
        Document::Record(entries) => {
            let ghost e = entries_view(entries@);
            match node.get_str("type") {
                Some(kind) => {
                    if str_eq(kind, "message") {
                        match node.get("message") {
                            Some(m) => match m.get_str("id") {
                                Some(id) => {
                                    ids.push(String::from_str(id));
                                },
                                None => {},
                            },
                            None => {},
                        }
                    } else if str_eq(kind, "folder") {
                        proof {
                            lemma_find_key(e, "children"@);
                        }
                        match node.get("children") {
                            Some(children) => {
                                collect_ids_into(children, ids);
                            },
                            None => {},
                        }
                    }
                },
                None => {},
            }
        },
        _ => {},
    }
}

/// The ids of the messages under the first folder with the given id, in the
/// order of the walk; none where the tree has no such folder.
pub fn collect_messages_from_folder(folder_id: &str, tree: &Document) -> (ids: Vec<String>)
    ensures
        texts(ids@) == folder_message_ids(folder_id@, tree@),
{
    let mut ids: Vec<String> = Vec::new();
    match find_folder_node(folder_id, tree) {
        Some(folder) => match folder.get("children") {
            Some(children) => {
                collect_ids_into(children, &mut ids);
                assert(Seq::<Seq<char>>::empty() + collect_ids(children@) =~= collect_ids(
                    children@,
                ));
            },
            None => {},
        },
        None => {},
    }
    ids
}

} // verus!
