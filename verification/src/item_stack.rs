//! Stacks of items and the lodestone tracker that a compass carries.

use vstd::prelude::*;
use crate::geometry::BlockPos;
use crate::identifier::{Identifier, IdentifierView};
use crate::identifier::vanilla;

verus! {

/// The place of a block in a given dimension.
#[derive(Debug)]
pub struct GlobalPos {
    pub dimension: Identifier,
    pub pos: BlockPos,
}

/// What a [`GlobalPos`] stands for.
#[verifier::ext_equal]
pub struct GlobalPosView {
    pub dimension: IdentifierView,
    pub pos: BlockPos,
}

impl View for GlobalPos {
    type V = GlobalPosView;

    open spec fn view(&self) -> GlobalPosView {
        GlobalPosView { dimension: self.dimension@, pos: self.pos }
    }
}

/// The component that ties a compass to a lodestone.
#[derive(Debug)]
pub struct LodestoneTracker {
    /// The lodestone, if there is one to point at.
    pub target: Option<GlobalPos>,
    /// Whether the target goes when the lodestone does.
    pub is_tracked: bool,
}

/// What a [`LodestoneTracker`] stands for.
#[verifier::ext_equal]
pub struct TrackerView {
    pub target: Option<GlobalPosView>,
    pub is_tracked: bool,
}

impl View for LodestoneTracker {
    type V = TrackerView;

    open spec fn view(&self) -> TrackerView {
        TrackerView {
            target: match self.target {
                Some(target) => Some(target@),
                None => None,
            },
            is_tracked: self.is_tracked,
        }
    }
}

impl LodestoneTracker {
    pub fn new(target: Option<GlobalPos>, is_tracked: bool) -> (result: LodestoneTracker)
        ensures
            result@.is_tracked == is_tracked,
            result@.target == (match target {
                Some(target) => Some(target@),
                None => None,
            }),
    {
        LodestoneTracker { target, is_tracked }
    }

    /// Another copy of the tracker.
    pub fn copied(&self) -> (result: LodestoneTracker)
        ensures
            result@ == self@,
    {
        let target = match &self.target {
            Some(target) => Some(
                GlobalPos { dimension: target.dimension.copied(), pos: target.pos },
            ),
            None => None,
        };
        LodestoneTracker { target, is_tracked: self.is_tracked }
    }
}

/// A number of items of one kind, with their components.
#[derive(Debug)]
pub struct ItemStack {
    pub item: Identifier,
    pub count: i32,
    pub lodestone_tracker: Option<LodestoneTracker>,
    /// All other components, in serialised form.
    pub components: Vec<u8>,
}

/// What an [`ItemStack`] stands for.
#[verifier::ext_equal]
pub struct ItemStackView {
    pub item: IdentifierView,
    pub count: i32,
    pub lodestone_tracker: Option<TrackerView>,
    pub components: Seq<u8>,
}

impl ItemStackView {
    /// A stack of air, or of nothing, is empty.
    pub open spec fn is_empty(self) -> bool {
        self.item == vanilla("air"@) || self.count <= 0
    }

    /// The stack that an empty slot holds.
    pub open spec fn empty() -> ItemStackView {
        ItemStackView::plain(vanilla("air"@), 0)
    }

    /// A stack without components.
    pub open spec fn plain(item: IdentifierView, count: i32) -> ItemStackView {
        ItemStackView { item, count, lodestone_tracker: None, components: Seq::empty() }
    }

    /// The same items in another number.
    pub open spec fn with_count(self, count: i32) -> ItemStackView {
        ItemStackView { count, ..self }
    }

    /// The same stack with the given tracker.
    pub open spec fn with_tracker(self, tracker: TrackerView) -> ItemStackView {
        ItemStackView { lodestone_tracker: Some(tracker), ..self }
    }
}

impl View for ItemStack {
    type V = ItemStackView;

    open spec fn view(&self) -> ItemStackView {
        ItemStackView {
            item: self.item@,
            count: self.count,
            lodestone_tracker: match self.lodestone_tracker {
                Some(tracker) => Some(tracker@),
                None => None,
            },
            components: self.components@,
        }
    }
}

impl ItemStack {
    /// The stack that an empty slot holds.
    pub fn empty() -> (result: ItemStack)
        ensures
            result@ == ItemStackView::empty(),
            result@.is_empty(),
    {
        ItemStack::with_count(Identifier::vanilla_static("air"), 0)
    }

    /// A single item.
    pub fn new(item: Identifier) -> (result: ItemStack)
        ensures
            result@ == ItemStackView::plain(item@, 1),
    {
        ItemStack::with_count(item, 1)
    }

    /// A number of items.
    pub fn with_count(item: Identifier, count: i32) -> (result: ItemStack)
        ensures
            result@ == ItemStackView::plain(item@, count),
    {
        ItemStack { item, count, lodestone_tracker: None, components: Vec::new() }
    }

    /// How many items there are.
    pub fn count(&self) -> (result: i32)
        ensures
            result == self@.count,
    {
        self.count
    }

    /// Whether there is nothing in the stack.
    pub fn is_empty(&self) -> (result: bool)
        ensures
            result == self@.is_empty(),
    {
        self.item.same_as(&Identifier::vanilla_static("air")) || self.count <= 0
    }

    /// Another copy of the stack.
    pub fn copied(&self) -> (result: ItemStack)
        ensures
            result@ == self@,
    {
        let lodestone_tracker = match &self.lodestone_tracker {
            Some(tracker) => Some(tracker.copied()),
            None => None,
        };
        ItemStack {
            item: self.item.copied(),
            count: self.count,
            lodestone_tracker,
            components: self.components.clone(),
        }
    }

    /// Takes up to `amount` items off the stack.
    pub fn split(&mut self, amount: i32) -> (taken: ItemStack)
        requires
            0 <= amount,
            0 <= old(self)@.count,
        ensures
            taken@ == old(self)@.with_count(
                if amount <= old(self)@.count { amount } else { old(self)@.count },
            ),
            final(self)@ == old(self)@.with_count((old(self)@.count - taken@.count) as i32),
    {
        let mut taken = self.copied();
        if amount < self.count {
            taken.count = amount;
        }
        self.count = self.count - taken.count;
        taken
    }
}

} // verus!
