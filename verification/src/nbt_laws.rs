//! What compounds hold and how tags are found in them.

use vstd::prelude::*;
use crate::nbt::{CompoundView, ListView, NbtCompound, NbtList, NbtTag, TagView};
use crate::nbt::{compound_views, find, find_byte, find_compounds, find_long, find_string};
use crate::nbt::list_view;

verus! {

/// A compound stands for its names and tags, one by one and in order; so do
/// several compounds.
pub proof fn law_compounds_are_their_entries(
    compound: NbtCompound,
    compounds: Vec<NbtCompound>,
    i: int,
)
    ensures
        compound@.len() == compound.entries@.len(),
        0 <= i < compound@.len() ==> compound@[i].0 == compound.entries@[i].name@,
        0 <= i < compound@.len() ==> compound@[i].1 == compound.entries@[i].tag@,
        compound_views(compounds).len() == compounds@.len(),
        0 <= i < compounds@.len() ==> compound_views(compounds)[i] == compounds@[i]@,
{
}

/// A tag stands for what it holds.
pub proof fn law_tags_are_their_contents(tag: NbtTag)
    ensures
        tag matches NbtTag::Byte(value) ==> tag@ == TagView::Byte(value),
        tag matches NbtTag::Short(value) ==> tag@ == TagView::Short(value),
        tag matches NbtTag::Int(value) ==> tag@ == TagView::Int(value),
        tag matches NbtTag::Long(value) ==> tag@ == TagView::Long(value),
        tag matches NbtTag::Float(value) ==> tag@ == TagView::Float(value),
        tag matches NbtTag::Double(value) ==> tag@ == TagView::Double(value),
        tag matches NbtTag::ByteArray(values) ==> tag@ == TagView::ByteArray(values@),
        tag matches NbtTag::String(text) ==> tag@ == TagView::String(text@),
        tag matches NbtTag::List(list) ==> tag@ == TagView::List(list@),
        tag matches NbtTag::Compound(compound) ==> tag@ == TagView::Compound(compound@),
        tag matches NbtTag::IntArray(values) ==> tag@ == TagView::IntArray(values@),
        tag matches NbtTag::LongArray(values) ==> tag@ == TagView::LongArray(values@),
{
}

/// A list stands for what it holds, element by element.
pub proof fn law_lists_are_their_contents(list: NbtList, i: int)
    ensures
        list is Empty ==> list@ == ListView::Empty,
        list matches NbtList::Byte(values) ==> list@ == ListView::Byte(values@),
        list matches NbtList::Short(values) ==> list@ == ListView::Short(values@),
        list matches NbtList::Int(values) ==> list@ == ListView::Int(values@),
        list matches NbtList::Long(values) ==> list@ == ListView::Long(values@),
        list matches NbtList::Float(values) ==> list@ == ListView::Float(values@),
        list matches NbtList::Double(values) ==> list@ == ListView::Double(values@),
        list matches NbtList::ByteArray(arrays) ==> {
            &&& list@ is ByteArray
            &&& list@->ByteArray_0.len() == arrays@.len()
            &&& 0 <= i < arrays@.len() ==> list@->ByteArray_0[i] == arrays@[i]@
        },
        list matches NbtList::String(texts) ==> {
            &&& list@ is String
            &&& list@->String_0.len() == texts@.len()
            &&& 0 <= i < texts@.len() ==> list@->String_0[i] == texts@[i]@
        },
        list matches NbtList::List(lists) ==> {
            &&& list@ is List
            &&& list@->List_0.len() == lists@.len()
            &&& 0 <= i < lists@.len() ==> list@->List_0[i] == lists@[i]@
        },
        list matches NbtList::Compound(compounds) ==> {
            &&& list@ is Compound
            &&& list@->Compound_0.len() == compounds@.len()
            &&& 0 <= i < compounds@.len() ==> list@->Compound_0[i] == compounds@[i]@
        },
        list matches NbtList::IntArray(arrays) ==> {
            &&& list@ is IntArray
            &&& list@->IntArray_0.len() == arrays@.len()
            &&& 0 <= i < arrays@.len() ==> list@->IntArray_0[i] == arrays@[i]@
        },
        list matches NbtList::LongArray(arrays) ==> {
            &&& list@ is LongArray
            &&& list@->LongArray_0.len() == arrays@.len()
            &&& 0 <= i < arrays@.len() ==> list@->LongArray_0[i] == arrays@[i]@
        },
{
    if let NbtList::Compound(compounds) = list {
        reveal_with_fuel(list_view, 2);
        assert(list@ == ListView::Compound(compound_views(compounds)));
    }
}

/// Nothing is found in a compound without entries.
pub proof fn law_nothing_is_found_in_nothing(name: Seq<char>)
    ensures
        find(CompoundView::empty(), name) is None,
{
}

/// A tag is looked for in the first part, then in the second.
pub proof fn law_find_in_two(first: CompoundView, second: CompoundView, name: Seq<char>)
    ensures
        find(first + second, name) == (match find(first, name) {
            Some(tag) => Some(tag),
            None => find(second, name),
        }),
    decreases first.len(),
{
    if first.len() == 0 {
        assert(first + second =~= second);
    } else {
        assert((first + second).skip(1) =~= first.skip(1) + second);
        law_find_in_two(first.skip(1), second, name);
    }
}

/// A compound of one entry holds that entry and nothing else.
pub proof fn law_find_in_one(entry: (Seq<char>, TagView), name: Seq<char>)
    ensures
        find(seq![entry], name) == if entry.0 == name {
            Some(entry.1)
        } else {
            None
        },
{
    reveal_with_fuel(find, 2);
}

/// A tag is looked for in what was there, then in what was added.
pub proof fn law_find_pushed(compound: CompoundView, entry: (Seq<char>, TagView), name: Seq<char>)
    ensures
        find(compound.push(entry), name) == (match find(compound, name) {
            Some(tag) => Some(tag),
            None => if entry.0 == name {
                Some(entry.1)
            } else {
                None
            },
        }),
{
    assert(compound.push(entry) =~= compound + seq![entry]);
    law_find_in_two(compound, seq![entry], name);
    law_find_in_one(entry, name);
}

/// The tag that is found is the first one of its name: it stands at some place,
/// and no entry before that place has the name.
pub proof fn law_the_first_of_a_name_is_found(compound: CompoundView, name: Seq<char>) -> (place:
    int)
    ensures
        0 <= place <= compound.len(),
        forall|i: int| 0 <= i < place ==> (#[trigger] compound[i]).0 != name,
        place < compound.len() ==> compound[place].0 == name && find(compound, name) == Some(
            compound[place].1,
        ),
        place == compound.len() ==> find(compound, name) is None,
    decreases compound.len(),
{
    if compound.len() == 0 {
        0
    } else if compound[0].0 == name {
        0
    } else {
        let rest = compound.skip(1);
        let place = law_the_first_of_a_name_is_found(rest, name);
        assert forall|i: int| 0 <= i < place + 1 implies (#[trigger] compound[i]).0 != name by {
            if i > 0 {
                assert(rest[i - 1] == compound[i]);
            }
        }
        place + 1
    }
}

/// A value of a kind is found exactly if the first tag of the name is of that
/// kind and holds it.
pub proof fn law_values_are_found_by_kind(
    compound: CompoundView,
    name: Seq<char>,
    byte: i8,
    long: i64,
    text: Seq<char>,
    compounds: Seq<CompoundView>,
)
    ensures
        find_byte(compound, name) == Some(byte) <==> find(compound, name) == Some(
            TagView::Byte(byte),
        ),
        find_long(compound, name) == Some(long) <==> find(compound, name) == Some(
            TagView::Long(long),
        ),
        find_string(compound, name) == Some(text) <==> find(compound, name) == Some(
            TagView::String(text),
        ),
        find_compounds(compound, name) == Some(compounds) <==> find(compound, name) == Some(
            TagView::List(ListView::Compound(compounds)),
        ),
{
}

} // verus!
