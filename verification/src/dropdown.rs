//! Dropdown menus: a reversible open/closed toggle driven by pointer events,
//! and the generator for the unique element ids their markup needs.
//!
//! Ids come from a monotonic counter rather than from slugified titles, so
//! two menus with equal titles can never collide.

use vstd::prelude::*;

verus! {

/// Hands out element ids that never repeat: each id is the number of ids
/// handed out before it.
pub struct IdGenerator {
    next_id: u64,
}

impl IdGenerator {
    /// The id the next call will hand out.
    pub closed spec fn next_id_spec(self) -> int {
        self.next_id as int
    }

    /// A fresh generator, starting at zero.
    pub fn new() -> (g: IdGenerator)
        ensures
            g.next_id_spec() == 0,
    {
        IdGenerator { next_id: 0 }
    }

    /// Hands out the next id. Ids are handed out in strictly increasing
    /// order, so no two calls on one generator return the same id.
    pub fn fresh_id(&mut self) -> (id: u64)
        requires
            old(self).next_id_spec() < u64::MAX,
        ensures
            id as int == old(self).next_id_spec(),
            final(self).next_id_spec() == old(self).next_id_spec() + 1,
    {
        let id = self.next_id;
        self.next_id = self.next_id + 1;
        id
    }
}

/// A pointer event a dropdown menu reacts to.
#[derive(Clone, Copy, Debug, PartialEq, Eq, Structural)]
pub enum DropdownEvent {
    /// The pointer moved over the menu's title.
    TitlePointerOver,
    /// The menu's title was clicked.
    TitleClick,
    /// One of the menu's items was clicked.
    ItemClick,
    /// The pointer left the menu's container.
    ContainerPointerLeave,
}

/// What one event does to the open flag. Hovering the title opens the menu;
/// clicking an item or leaving the container closes it. Clicking the title
/// toggles it — unless the title is a link that navigates away instead, in
/// which case the click changes nothing here.
pub open spec fn spec_dropdown_step(open: bool, title_is_link: bool, event: DropdownEvent) -> bool {
    match event {
        DropdownEvent::TitlePointerOver => true,
        DropdownEvent::TitleClick => if title_is_link {
            open
        } else {
            !open
        },
        DropdownEvent::ItemClick => false,
        DropdownEvent::ContainerPointerLeave => false,
    }
}

/// The mathematical state of a dropdown menu.
pub ghost struct DropdownModel {
    /// The menu's unique element id.
    pub id: int,
    /// The title is a link with its own navigation (no toggle on click).
    pub title_is_link: bool,
    /// Whether the item list is shown.
    pub open: bool,
}

/// One dropdown menu: closed until the pointer hovers its title, closed again
/// when the pointer leaves or an item is picked.
pub struct DropdownMenu {
    id: u64,
    title_is_link: bool,
    open: bool,
}

impl View for DropdownMenu {
    type V = DropdownModel;

    closed spec fn view(&self) -> DropdownModel {
        DropdownModel { id: self.id as int, title_is_link: self.title_is_link, open: self.open }
    }
}

impl DropdownMenu {
    /// A fresh, closed menu with an id nothing else carries.
    pub fn new(ids: &mut IdGenerator, title_is_link: bool) -> (m: DropdownMenu)
        requires
            old(ids).next_id_spec() < u64::MAX,
        ensures
            m@.id == old(ids).next_id_spec(),
            final(ids).next_id_spec() == old(ids).next_id_spec() + 1,
            m@.title_is_link == title_is_link,
            !m@.open,
    {
        DropdownMenu { id: ids.fresh_id(), title_is_link, open: false }
    }

    /// One pointer event, applied synchronously.
    pub fn on_event(&mut self, event: DropdownEvent)
        ensures
            final(self)@.id == old(self)@.id,
            final(self)@.title_is_link == old(self)@.title_is_link,
            final(self)@.open == spec_dropdown_step(
                old(self)@.open,
                old(self)@.title_is_link,
                event,
            ),
    {
        match event {
            DropdownEvent::TitlePointerOver => {
                self.open = true;
            },
            DropdownEvent::TitleClick => {
                if !self.title_is_link {
                    self.open = !self.open;
                }
            },
            DropdownEvent::ItemClick => {
                self.open = false;
            },
            DropdownEvent::ContainerPointerLeave => {
                self.open = false;
            },
        }
    }

    /// Whether the item list is shown.
    pub fn is_open(&self) -> (open: bool)
        ensures
            open == self@.open,
    {
        self.open
    }

    /// The menu's unique element id.
    pub fn id(&self) -> (id: u64)
        ensures
            id as int == self@.id,
    {
        self.id
    }
}

} // verus!
