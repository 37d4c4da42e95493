use vstd::prelude::*;
use crate::json::{Json, obj_get, get_field};

verus! {

/// One catalog entry, as the vault tool's listing reports it: the item's
/// name, the folder it sits in (absent for unfiled items), and its type.
#[derive(Debug)]
pub struct ListItem {
    pub name: String,
    pub folder: Option<String>,
    pub item_type: String,
}

/// The retrieved content of a single vault item: its type (for instance a
/// login or a secure note) and its notes text, either of which the tool may
/// omit.
#[derive(Debug)]
pub struct RbwItem {
    pub item_type: Option<String>,
    pub notes: Option<String>,
}

/// Mathematical image of a catalog entry.
pub struct EntryView {
    pub name: Seq<char>,
    pub folder: Option<Seq<char>>,
    pub item_type: Seq<char>,
}

/// Mathematical image of a retrieved item.
pub struct ItemView {
    pub item_type: Option<Seq<char>>,
    pub notes: Option<Seq<char>>,
}

impl View for ListItem {
    type V = EntryView;

    open spec fn view(&self) -> EntryView {
        EntryView {
            name: self.name@,
            folder: self.folder.deep_view(),
            item_type: self.item_type@,
        }
    }
}

impl View for RbwItem {
    type V = ItemView;

    open spec fn view(&self) -> ItemView {
        ItemView { item_type: self.item_type.deep_view(), notes: self.notes.deep_view() }
    }
}

/// How a field that may hold a string decodes: a missing field and a JSON
/// null both stand for "no value"; any other non-string shape is a decode
/// error, reported as the outer `None`.
pub open spec fn opt_string_field(fields: Seq<(String, Json)>, key: Seq<char>) -> Option<
    Option<Seq<char>>,
> {
    match obj_get(fields, key) {
        None => Some(None),
        Some(Json::Null) => Some(None),
        Some(Json::Str(s)) => Some(Some(s@)),
        Some(_) => None,
    }
}

/// How a field that must hold a string decodes: anything but a string
/// (including a missing field) is a decode error.
pub open spec fn req_string_field(fields: Seq<(String, Json)>, key: Seq<char>) -> Option<
    Seq<char>,
> {
    match obj_get(fields, key) {
        Some(Json::Str(s)) => Some(s@),
        _ => None,
    }
}

/// The catalog entry a JSON value decodes to, or `None` when its shape does
/// not match: it must be an object with string fields `name` and `type`, and
/// an optional string field `folder`.
pub open spec fn entry_of(j: Json) -> Option<EntryView> {
    match j {
        Json::Obj(fields) => {
            let name = req_string_field(fields@, "name"@);
            let folder = opt_string_field(fields@, "folder"@);
            let ty = req_string_field(fields@, "type"@);
            if name is Some && folder is Some && ty is Some {
                Some(
                    EntryView {
                        name: name->Some_0,
                        folder: folder->Some_0,
                        item_type: ty->Some_0,
                    },
                )
            } else {
                None
            }
        },
        _ => None,
    }
}

/// The item record a JSON value decodes to, or `None` when its shape does
/// not match: it must be an object whose `type` and `notes` fields, where
/// present, hold strings or nulls.
pub open spec fn item_of(j: Json) -> Option<ItemView> {
    match j {
        Json::Obj(fields) => {
            let ty = opt_string_field(fields@, "type"@);
            let notes = opt_string_field(fields@, "notes"@);
            if ty is Some && notes is Some {
                Some(ItemView { item_type: ty->Some_0, notes: notes->Some_0 })
            } else {
                None
            }
        },
        _ => None,
    }
}

/// The catalog entries a sequence of JSON values decodes to; one bad element
/// spoils the whole sequence.
pub open spec fn entries_of_seq(js: Seq<Json>) -> Option<Seq<EntryView>>
    decreases js.len(),
{
    if js.len() == 0 {
        Some(Seq::empty())
    } else {
        match (entries_of_seq(js.drop_last()), entry_of(js.last())) {
            (Some(rest), Some(e)) => Some(rest.push(e)),
            _ => None,
        }
    }
}

/// The catalog a whole JSON document decodes to: it must be an array of
/// well-shaped entries.
pub open spec fn entries_of(j: Json) -> Option<Seq<EntryView>> {
    match j {
        Json::Arr(items) => entries_of_seq(items@),
        _ => None,
    }
}

/// The views of a sequence of catalog entries, element for element.
pub open spec fn entry_views(s: Seq<ListItem>) -> Seq<EntryView> {
    Seq::new(s.len(), |i: int| s[i]@)
}

/// Decodes one catalog entry from its JSON value.
pub fn parse_entry(j: &Json) -> (r: Option<ListItem>)
    ensures
        match r {
            Some(li) => entry_of(*j) == Some(li@),
            None => entry_of(*j) is None,
        },
{
    match j {
        Json::Obj(fields) => {
            let name: String = match get_field(fields, "name") {
                Some(Json::Str(s)) => s.clone(),
                _ => {
                    return None;
                },
            };
            let folder: Option<String> = match get_field(fields, "folder") {
                None => None,
                Some(Json::Null) => None,
                Some(Json::Str(s)) => Some(s.clone()),
                _ => {
                    return None;
                },
            };
            let ty: String = match get_field(fields, "type") {
                Some(Json::Str(s)) => s.clone(),
                _ => {
                    return None;
                },
            };
            Some(ListItem { name, folder, item_type: ty })
        },
        _ => None,
    }
}

/// Decodes one item record from its JSON value.
pub fn parse_item(j: &Json) -> (r: Option<RbwItem>)
    ensures
        match r {
            Some(it) => item_of(*j) == Some(it@),
            None => item_of(*j) is None,
        },
{
    match j {
        Json::Obj(fields) => {
            let ty: Option<String> = match get_field(fields, "type") {
                None => None,
                Some(Json::Null) => None,
                Some(Json::Str(s)) => Some(s.clone()),
                _ => {
                    return None;
                },
            };
            let notes: Option<String> = match get_field(fields, "notes") {
                None => None,
                Some(Json::Null) => None,
                Some(Json::Str(s)) => Some(s.clone()),
                _ => {
                    return None;
                },
            };
            Some(RbwItem { item_type: ty, notes })
        },
        _ => None,
    }
}

/// One bad element spoils the decode of the whole sequence.
proof fn lemma_entries_of_seq_bad(js: Seq<Json>, i: int)
    requires
        0 <= i < js.len(),
        entry_of(js[i]) is None,
    ensures
        entries_of_seq(js) is None,
    decreases js.len(),
{
    if i < js.len() - 1 {
        assert(js.drop_last()[i] == js[i]);
        lemma_entries_of_seq_bad(js.drop_last(), i);
    }
}

/// Decodes the whole catalog from its JSON document.
pub fn parse_entries(j: &Json) -> (r: Option<Vec<ListItem>>)
    ensures
        match r {
            Some(v) => entries_of(*j) == Some(entry_views(v@)),
            None => entries_of(*j) is None,
        },
{
    match j {
        Json::Arr(items) => {
            let len = items.len();
            let mut out: Vec<ListItem> = Vec::new();
            let mut i: usize = 0;
            proof {
                assert(items@.take(0) =~= Seq::<Json>::empty());
                assert(entry_views(out@) =~= Seq::<EntryView>::empty());
            }
            while i < len
                invariant
                    len == items@.len(),
                    i <= len,
                    out@.len() == i,
                    entries_of(*j) == entries_of_seq(items@),
                    entries_of_seq(items@.take(i as int)) == Some(entry_views(out@)),
                decreases len - i,
            {
                match parse_entry(&items[i]) {
                    Some(li) => {
                        out.push(li);
                        proof {
                            let t = items@.take(i + 1);
                            assert(t.drop_last() =~= items@.take(i as int));
                            assert(t.last() == items@[i as int]);
                            assert(entry_views(out@) =~= entry_views(
                                out@.drop_last(),
                            ).push(out@.last()@));
                        }
                    },
                    None => {
                        proof {
                            lemma_entries_of_seq_bad(items@, i as int);
                        }
                        return None;
                    },
                }
                i += 1;
            }
            proof {
                assert(items@.take(len as int) =~= items@);
            }
            Some(out)
        },
        _ => None,
    }
}

} // verus!
