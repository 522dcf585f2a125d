use vstd::prelude::*;

use crate::item::{HistoryView, Item, Items, RequiredFetch, SearchResult};

verus! {

/// The panes of the terminal interface, in focus order.
#[derive(Copy, Clone, Debug, PartialEq, Eq, Structural)]
pub enum UiElement {
    ItemList,
    StatusInfo,
    InputField,
}

/// Number of panes that focus cycles through.
pub const UI_ELEMENT_COUNT: u8 = 3;

impl UiElement {
    /// Position of the pane in focus order.
    pub open spec fn index(self) -> nat {
        match self {
            UiElement::ItemList => 0,
            UiElement::StatusInfo => 1,
            UiElement::InputField => 2,
        }
    }

    /// Position of the pane in focus order.
    pub fn to_u8(self) -> (r: u8)
        ensures
            r as nat == self.index(),
    {
        match self {
            UiElement::ItemList => 0,
            UiElement::StatusInfo => 1,
            UiElement::InputField => 2,
        }
    }

    /// The pane at a position in focus order.
    pub fn from_u8(value: u8) -> (r: Self)
        requires
            value < UI_ELEMENT_COUNT,
        ensures
            r.index() == value as nat,
    {
        match value {
            0 => UiElement::ItemList,
            1 => UiElement::StatusInfo,
            _ => UiElement::InputField,
        }
    }

    /// The pane after this one, wrapping around.
    pub fn next(self) -> (r: Self)
        ensures
            r.index() == (self.index() + 1) % (UI_ELEMENT_COUNT as nat),
    {
        let value = (self.to_u8() + 1) % UI_ELEMENT_COUNT;
        Self::from_u8(value)
    }

    /// The pane before this one, wrapping around.
    pub fn prev(self) -> (r: Self)
        ensures
            r.index() == (self.index() + 2) % (UI_ELEMENT_COUNT as nat),
    {
        let value = (self.to_u8() + UI_ELEMENT_COUNT - 1) % UI_ELEMENT_COUNT;
        Self::from_u8(value)
    }
}

/// Stepping focus forward and then back, or back and then forward, returns to
/// the same pane: `f` and `g` are what `next` and `prev` give.
pub proof fn lemma_prev_undoes_next(e: UiElement, f: UiElement, g: UiElement)
    ensures
        f.index() == (e.index() + 1) % (UI_ELEMENT_COUNT as nat) && g.index() == (f.index() + 2) % (
        UI_ELEMENT_COUNT as nat) ==> g == e,
        f.index() == (e.index() + 2) % (UI_ELEMENT_COUNT as nat) && g.index() == (f.index() + 1) % (
        UI_ELEMENT_COUNT as nat) ==> g == e,
{
}

/// A step of the selection within the visible frame.
#[derive(Copy, Clone, Debug, PartialEq, Eq, Structural)]
pub enum Direction {
    Up,
    Down,
}

/// The selection for a frame of `len` entries, kept as close to `sel` as the
/// frame allows: none for an empty frame, the first entry when there was none.
pub open spec fn clamp_selection(sel: Option<nat>, len: nat) -> Option<nat> {
    if len == 0 {
        None
    } else {
        match sel {
            Some(i) => Some(if i < len { i } else { (len - 1) as nat }),
            None => Some(0),
        }
    }
}

/// The browsing state as mathematics: the history and the selection in the
/// visible frame.
pub struct CatalogView {
    pub history: HistoryView,
    pub selection: Option<nat>,
}

impl CatalogView {
    /// The selection is an index of the visible frame, and absent exactly
    /// when that frame is empty.
    pub open spec fn wf(self) -> bool {
        &&& self.history.wf()
        &&& (self.selection is None <==> self.history.current().len() == 0)
        &&& (self.selection matches Some(i) ==> i < self.history.current().len())
    }

    /// A new frame shown, with its first entry selected.
    pub open spec fn pushed(self, frame: Seq<Item>) -> CatalogView {
        CatalogView {
            history: self.history.pushed(frame),
            selection: if frame.len() > 0 { Some(0) } else { None },
        }
    }

    /// One frame back, the selection clamped to it; unchanged at the root.
    pub open spec fn backed(self) -> CatalogView {
        if self.history.depth > 0 {
            CatalogView {
                history: self.history.backed(),
                selection: clamp_selection(self.selection, self.history.backed().current().len()),
            }
        } else {
            self
        }
    }

    /// The selection one entry up or down, held within the frame.
    pub open spec fn moved(self, dir: Direction) -> CatalogView {
        match self.selection {
            None => self,
            Some(i) => CatalogView {
                history: self.history,
                selection: match dir {
                    Direction::Up => Some(if i > 0 { (i - 1) as nat } else { 0 }),
                    Direction::Down => Some(
                        if i + 1 < self.history.current().len() { i + 1 } else { i },
                    ),
                },
            },
        }
    }

    /// Frames after the visible one dropped; the selection stays.
    pub open spec fn collapsed(self) -> CatalogView {
        CatalogView { history: self.history.collapsed(), selection: self.selection }
    }
}

/// Showing a new frame and going straight back returns to the frame that was
/// visible, at the same depth, with every frame up to it kept and the selection
/// of the new frame clamped to the restored one.
pub proof fn lemma_push_then_back(c: CatalogView, frame: Seq<Item>)
    requires
        c.wf(),
    ensures
        c.pushed(frame).backed().wf(),
        c.pushed(frame).backed().history.depth == c.history.depth,
        c.pushed(frame).backed().history.current() == c.history.current(),
        c.pushed(frame).backed().history.frames.take((c.history.depth + 1) as int)
            == c.history.frames.take((c.history.depth + 1) as int),
        c.pushed(frame).backed().selection == clamp_selection(
            c.pushed(frame).selection,
            c.history.current().len(),
        ),
{
    let d = c.history.depth as int;
    let p = c.pushed(frame);
    assert(p.history.frames[d] == c.history.frames[d]);
    assert(p.backed().history.frames.take(d + 1) =~= c.history.frames.take(d + 1));
}

/// Going back at the root changes nothing.
pub proof fn lemma_back_at_root(c: CatalogView)
    requires
        c.wf(),
        c.history.depth == 0,
    ensures
        c.backed() == c,
{
}

/// Every step keeps the selection inside the visible frame, and absent exactly
/// when that frame is empty.
pub proof fn lemma_steps_keep_selection(c: CatalogView, frame: Seq<Item>, dir: Direction)
    requires
        c.wf(),
    ensures
        c.pushed(frame).wf(),
        c.backed().wf(),
        c.moved(dir).wf(),
        c.collapsed().wf(),
{
    assert(c.pushed(frame).history.current() == frame);
    assert(c.collapsed().history.current() == c.history.current());
}

/// A frame shown after going back replaces everything that was ahead: after
/// showing `a` and `b`, going back and showing `c`, the history is the frames up
/// to the starting one, then `a` and `c`, and `c` is visible.
pub proof fn lemma_push_after_back_drops_forward(
    s: CatalogView,
    a: Seq<Item>,
    b: Seq<Item>,
    c: Seq<Item>,
)
    requires
        s.wf(),
    ensures
        s.pushed(a).pushed(b).backed().pushed(c).history.frames
            == s.history.frames.take((s.history.depth + 1) as int).push(a).push(c),
        s.pushed(a).pushed(b).backed().pushed(c).history.depth == s.history.depth + 2,
{
    let d = (s.history.depth + 1) as int;
    let t = s.pushed(a).pushed(b).backed();
    assert(t.history.frames.take(d + 1) =~= s.history.frames.take(d).push(a));
}

/// The browsable list: the history of result frames and the selection.
pub struct ItemList {
    items: Items,
    selected: Option<usize>,
}

impl View for ItemList {
    type V = CatalogView;

    closed spec fn view(&self) -> CatalogView {
        CatalogView {
            history: self.items@,
            selection: match self.selected {
                Some(i) => Some(i as nat),
                None => None,
            },
        }
    }
}

fn clamp(sel: Option<usize>, len: usize) -> (r: Option<usize>)
    ensures
        (match r {
            Some(i) => Some(i as nat),
            None => None,
        }) == clamp_selection(
            match sel {
                Some(i) => Some(i as nat),
                None => None,
            },
            len as nat,
        ),
{
    if len == 0 {
        None
    } else {
        match sel {
            Some(i) => Some(if i < len { i } else { len - 1 }),
            None => Some(0),
        }
    }
}

impl ItemList {
    /// The history is well formed and the selection fits its visible frame.
    pub closed spec fn wf(&self) -> bool {
        &&& self.items.wf()
        &&& self@.wf()
    }

    /// A well-formed list has a well-formed view: the cursor is in the stack
    /// and the selection fits the visible frame.
    pub proof fn lemma_wf(&self)
        requires
            self.wf(),
        ensures
            self@.wf(),
    {
    }

    /// A list showing the empty root frame, with nothing selected.
    pub fn new() -> (r: Self)
        ensures
            r.wf(),
            r@.history.frames == seq![Seq::<Item>::empty()],
            r@.history.depth == 0,
            r@.selection is None,
    {
        ItemList { items: Items::new(), selected: None }
    }

    /// The history of frames.
    pub fn items(&self) -> (r: &Items)
        ensures
            r@ == self@.history,
    {
        &self.items
    }

    /// The visible frame.
    pub fn current_frame(&self) -> (r: &Vec<Item>)
        requires
            self.wf(),
        ensures
            r@ == self@.history.current(),
    {
        self.items.get()
    }

    /// The selected index in the visible frame.
    pub fn current_selection(&self) -> (r: Option<usize>)
        ensures
            (match r {
                Some(i) => Some(i as nat),
                None => None,
            }) == self@.selection,
    {
        self.selected
    }

    /// Number of frames before the visible one.
    pub fn depth(&self) -> (r: usize)
        ensures
            r as nat == self@.history.depth,
    {
        self.items.depth()
    }

    /// Moves the selection one entry up; a no-op on an empty frame.
    pub fn select_previous(&mut self)
        requires
            old(self).wf(),
        ensures
            final(self).wf(),
            final(self)@ == old(self)@.moved(Direction::Up),
    {
        self.move_selection(Direction::Up)
    }

    /// Moves the selection one entry down; a no-op on an empty frame.
    pub fn select_next(&mut self)
        requires
            old(self).wf(),
        ensures
            final(self).wf(),
            final(self)@ == old(self)@.moved(Direction::Down),
    {
        self.move_selection(Direction::Down)
    }

    /// Moves the selection one entry, clamped to the visible frame.
    pub fn move_selection(&mut self, dir: Direction)
        requires
            old(self).wf(),
        ensures
            final(self).wf(),
            final(self)@ == old(self)@.moved(dir),
            final(self)@.selection is None <==> final(self)@.history.current().len() == 0,
            final(self)@.selection matches Some(i) ==> i < final(self)@.history.current().len(),
    {
        let len = self.items.get().len();
        match self.selected {
            None => {},
            Some(i) => {
                let j = match dir {
                    Direction::Up => if i > 0 { i - 1 } else { 0 },
                    Direction::Down => if i + 1 < len { i + 1 } else { i },
                };
                self.selected = Some(j);
            },
        }
    }

    /// Replaces the whole history, keeping the selection as close as the
    /// visible frame allows.
    pub fn set_items(&mut self, items: Items)
        requires
            old(self).wf(),
            items.wf(),
        ensures
            final(self).wf(),
            final(self)@ == (CatalogView {
                history: items@,
                selection: clamp_selection(old(self)@.selection, items@.current().len()),
            }),
    {
        self.items = items;
        self.apply_selection();
    }

    /// Drops every frame after the visible one.
    pub fn collapse(&mut self)
        requires
            old(self).wf(),
        ensures
            final(self).wf(),
            final(self)@ == old(self)@.collapsed(),
    {
        self.items.collapse();
    }

    /// Drops the forward history and shows `items` as a new frame, with its
    /// first entry selected.
    pub fn push(&mut self, items: Vec<Item>)
        requires
            old(self).wf(),
            old(self)@.history.depth + 1 < usize::MAX,
        ensures
            final(self).wf(),
            final(self)@ == old(self)@.pushed(items@),
    {
        let len = items.len();
        self.items.push(items);
        self.selected = if len > 0 { Some(0) } else { None };
    }

    fn apply_selection(&mut self)
        requires
            old(self).items.wf(),
        ensures
            final(self).wf(),
            final(self).items == old(self).items,
            final(self)@.selection == clamp_selection(old(self)@.selection, old(self)@.history.current().len()),
    {
        proof {
            self.items.lemma_wf();
        }
        let len = self.items.get().len();
        self.selected = clamp(self.selected, len);
    }

    /// Shows the previous frame, the selection clamped to it; a no-op at the
    /// root.
    pub fn back(&mut self)
        requires
            old(self).wf(),
        ensures
            final(self).wf(),
            final(self)@ == old(self)@.backed(),
    {
        if self.depth() > 0 {
            self.items.back();
            self.apply_selection();
        }
    }

    /// Shows the entries of a search as a new frame.
    pub fn from_search(&mut self, result: SearchResult)
        requires
            old(self).wf(),
            old(self)@.history.depth + 1 < usize::MAX,
        ensures
            final(self).wf(),
            final(self)@ == old(self)@.pushed(result.entries()),
    {
        let output = result.into_items();
        self.push(output);
    }

    /// What activating the selected entry asks for; none on an empty frame.
    pub fn drill_into(&self) -> (r: Option<RequiredFetch>)
        requires
            self.wf(),
        ensures
            r == (match self@.selection {
                Some(i) => Some(self@.history.current()[i as int].required_fetch()),
                None => None,
            }),
    {
        match self.selected {
            Some(i) => Some(self.items.get()[i].drill_into()),
            None => None,
        }
    }
}

/// The state of the terminal interface: the list, the text typed so far and
/// the focused pane.
pub struct Ui {
    pub item_list: ItemList,
    pub input_field: String,
    pub selected_element: UiElement,
}

impl Ui {
    /// The list at its root, an empty input line and focus on the list.
    pub fn new() -> (r: Self)
        ensures
            r.item_list.wf(),
            r.item_list@.history.frames == seq![Seq::<Item>::empty()],
            r.item_list@.history.depth == 0,
            r.item_list@.selection is None,
            r.input_field@ == Seq::<char>::empty(),
            r.selected_element == UiElement::ItemList,
    {
        Ui { item_list: ItemList::new(), input_field: String::new(), selected_element: UiElement::ItemList }
    }
}

} // verus!
