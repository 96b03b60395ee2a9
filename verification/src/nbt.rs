//! Named binary tags, as far as saving and loading reads and writes them.

use vstd::prelude::*;
use crate::float_bits::{Double, Single};

verus! {

/// A list of named tags. The order of the tags is preserved, and a name may
/// occur more than once.
#[derive(Debug)]
pub struct NbtCompound {
    pub entries: Vec<NbtEntry>,
}

/// A tag with its name.
#[derive(Debug)]
pub struct NbtEntry {
    pub name: String,
    pub tag: NbtTag,
}

/// A single tag.
#[derive(Debug)]
pub enum NbtTag {
    Byte(i8),
    Short(i16),
    Int(i32),
    Long(i64),
    Float(Single),
    Double(Double),
    ByteArray(Vec<u8>),
    String(String),
    List(NbtList),
    Compound(NbtCompound),
    IntArray(Vec<i32>),
    LongArray(Vec<i64>),
}

/// Tags of one kind in a row.
#[derive(Debug)]
pub enum NbtList {
    Empty,
    Byte(Vec<i8>),
    Short(Vec<i16>),
    Int(Vec<i32>),
    Long(Vec<i64>),
    Float(Vec<Single>),
    Double(Vec<Double>),
    ByteArray(Vec<Vec<u8>>),
    String(Vec<String>),
    List(Vec<NbtList>),
    Compound(Vec<NbtCompound>),
    IntArray(Vec<Vec<i32>>),
    LongArray(Vec<Vec<i64>>),
}

/// What a compound stands for: its names and tags, in order.
pub type CompoundView = Seq<(Seq<char>, TagView)>;

/// What a tag stands for.
pub enum TagView {
    Byte(i8),
    Short(i16),
    Int(i32),
    Long(i64),
    Float(Single),
    Double(Double),
    ByteArray(Seq<u8>),
    String(Seq<char>),
    List(ListView),
    Compound(Seq<(Seq<char>, TagView)>),
    IntArray(Seq<i32>),
    LongArray(Seq<i64>),
}

/// What a list stands for.
pub enum ListView {
    Empty,
    Byte(Seq<i8>),
    Short(Seq<i16>),
    Int(Seq<i32>),
    Long(Seq<i64>),
    Float(Seq<Single>),
    Double(Seq<Double>),
    ByteArray(Seq<Seq<u8>>),
    String(Seq<Seq<char>>),
    List(Seq<ListView>),
    Compound(Seq<Seq<(Seq<char>, TagView)>>),
    IntArray(Seq<Seq<i32>>),
    LongArray(Seq<Seq<i64>>),
}

impl View for NbtCompound {
    type V = CompoundView;

    open spec fn view(&self) -> CompoundView {
        compound_view(*self)
    }
}

impl View for NbtTag {
    type V = TagView;

    open spec fn view(&self) -> TagView {
        tag_view(*self)
    }
}

impl View for NbtList {
    type V = ListView;

    open spec fn view(&self) -> ListView {
        list_view(*self)
    }
}

/// The names and tags of a compound.
pub open spec fn compound_view(compound: NbtCompound) -> CompoundView
    decreases compound,
{
    Seq::new(
        compound.entries@.len(),
        |i: int|
            if 0 <= i < compound.entries@.len() {
                (compound.entries@[i].name@, tag_view(compound.entries@[i].tag))
            } else {
                arbitrary()
            },
    )
}

/// The contents of a tag.
pub open spec fn tag_view(tag: NbtTag) -> TagView
    decreases tag,
{
    match tag {
        NbtTag::Byte(value) => TagView::Byte(value),
        NbtTag::Short(value) => TagView::Short(value),
        NbtTag::Int(value) => TagView::Int(value),
        NbtTag::Long(value) => TagView::Long(value),
        NbtTag::Float(value) => TagView::Float(value),
        NbtTag::Double(value) => TagView::Double(value),
        NbtTag::ByteArray(values) => TagView::ByteArray(values@),
        NbtTag::String(text) => TagView::String(text@),
        NbtTag::List(list) => TagView::List(list_view(list)),
        NbtTag::Compound(compound) => TagView::Compound(compound_view(compound)),
        NbtTag::IntArray(values) => TagView::IntArray(values@),
        NbtTag::LongArray(values) => TagView::LongArray(values@),
    }
}

/// The contents of a list.
pub open spec fn list_view(list: NbtList) -> ListView
    decreases list,
{
    match list {
        NbtList::Empty => ListView::Empty,
        NbtList::Byte(values) => ListView::Byte(values@),
        NbtList::Short(values) => ListView::Short(values@),
        NbtList::Int(values) => ListView::Int(values@),
        NbtList::Long(values) => ListView::Long(values@),
        NbtList::Float(values) => ListView::Float(values@),
        NbtList::Double(values) => ListView::Double(values@),
        NbtList::ByteArray(arrays) => ListView::ByteArray(
            arrays@.map_values(|array: Vec<u8>| array@),
        ),
        NbtList::String(texts) => ListView::String(texts@.map_values(|text: String| text@)),
        NbtList::List(lists) => ListView::List(
            Seq::new(
                lists@.len(),
                |i: int|
                    if 0 <= i < lists@.len() {
                        list_view(lists@[i])
                    } else {
                        arbitrary()
                    },
            ),
        ),
        NbtList::Compound(compounds) => ListView::Compound(compound_views(compounds)),
        NbtList::IntArray(arrays) => ListView::IntArray(
            arrays@.map_values(|array: Vec<i32>| array@),
        ),
        NbtList::LongArray(arrays) => ListView::LongArray(
            arrays@.map_values(|array: Vec<i64>| array@),
        ),
    }
}

/// The contents of several compounds.
pub open spec fn compound_views(compounds: Vec<NbtCompound>) -> Seq<CompoundView>
    decreases compounds,
{
    Seq::new(
        compounds@.len(),
        |i: int|
            if 0 <= i < compounds@.len() {
                compound_view(compounds@[i])
            } else {
                arbitrary()
            },
    )
}

/// The first tag of the given name.
pub open spec fn find(compound: CompoundView, name: Seq<char>) -> Option<TagView>
    decreases compound.len(),
{
    if compound.len() == 0 {
        None
    } else if compound[0].0 == name {
        Some(compound[0].1)
    } else {
        find(compound.skip(1), name)
    }
}

/// The first tag of the given name, if it is a byte.
pub open spec fn find_byte(compound: CompoundView, name: Seq<char>) -> Option<i8> {
    match find(compound, name) {
        Some(TagView::Byte(value)) => Some(value),
        _ => None,
    }
}

/// The first tag of the given name, if it is a long.
pub open spec fn find_long(compound: CompoundView, name: Seq<char>) -> Option<i64> {
    match find(compound, name) {
        Some(TagView::Long(value)) => Some(value),
        _ => None,
    }
}

/// The first tag of the given name, if it is a string.
pub open spec fn find_string(compound: CompoundView, name: Seq<char>) -> Option<Seq<char>> {
    match find(compound, name) {
        Some(TagView::String(text)) => Some(text),
        _ => None,
    }
}

/// The first tag of the given name, if it is a list of compounds.
pub open spec fn find_compounds(compound: CompoundView, name: Seq<char>) -> Option<
    Seq<CompoundView>,
> {
    match find(compound, name) {
        Some(TagView::List(ListView::Compound(compounds))) => Some(compounds),
        _ => None,
    }
}

impl NbtCompound {
    /// A compound without tags.
    pub fn new() -> (result: NbtCompound)
        ensures
            result@ == CompoundView::empty(),
    {
        NbtCompound { entries: Vec::new() }
    }

    /// Adds a tag at the end, whatever is there already.
    pub fn insert(&mut self, name: &str, tag: NbtTag)
        ensures
            final(self)@ == old(self)@.push((name@, tag@)),
    {
        self.entries.push(NbtEntry { name: name.to_owned(), tag });
        assert(self@ =~= old(self)@.push((name@, tag@)));
    }

    /// The first tag of the given name.
    pub fn get(&self, name: &str) -> (result: Option<&NbtTag>)
        ensures
            find(self@, name@) == (match result {
                Some(tag) => Some(tag@),
                None => None,
            }),
    {
        let wanted = name.to_owned();
        let mut i: usize = 0;
        assert(self@.skip(0) =~= self@);
        while i < self.entries.len()
            invariant
                i <= self.entries.len(),
                wanted@ == name@,
                self@.len() == self.entries@.len(),
                find(self@, name@) == find(self@.skip(i as int), name@),
            decreases self.entries.len() - i,
        {
            assert(self@.skip(i as int)[0] == self@[i as int]);
            assert(self@.skip(i as int).skip(1) =~= self@.skip(i + 1));
            if self.entries[i].name == wanted {
                return Some(&self.entries[i].tag);
            }
            i = i + 1;
        }
        None
    }

    /// The byte of the given name.
    pub fn byte(&self, name: &str) -> (result: Option<i8>)
        ensures
            result == find_byte(self@, name@),
    {
        match self.get(name) {
            Some(NbtTag::Byte(value)) => Some(*value),
            _ => None,
        }
    }

    /// The long of the given name.
    pub fn long(&self, name: &str) -> (result: Option<i64>)
        ensures
            result == find_long(self@, name@),
    {
        match self.get(name) {
            Some(NbtTag::Long(value)) => Some(*value),
            _ => None,
        }
    }

    /// The string of the given name.
    pub fn string(&self, name: &str) -> (result: Option<&String>)
        ensures
            find_string(self@, name@) == (match result {
                Some(text) => Some(text@),
                None => None,
            }),
    {
        match self.get(name) {
            Some(NbtTag::String(text)) => Some(text),
            _ => None,
        }
    }

    /// The list of compounds of the given name.
    pub fn compounds(&self, name: &str) -> (result: Option<&Vec<NbtCompound>>)
        ensures
            find_compounds(self@, name@) == (match result {
                Some(compounds) => Some(compound_views(*compounds)),
                None => None,
            }),
    {
        match self.get(name) {
            Some(NbtTag::List(NbtList::Compound(compounds))) => Some(compounds),
            _ => None,
        }
    }
}

} // verus!
