use vstd::prelude::*;
use crate::input::text_equals;

verus! {

/// The movable elements of the big screen.
#[derive(Debug, Clone, Copy, PartialEq, Eq, Hash, Structural)]
pub enum ElementId {
    Event,
    Phase,
    Clock,
    Home,
    Away,
    Score,
}

/// Number of movable elements.
pub const ELEMENT_COUNT: usize = 6;

/// The stored name of an element.
pub open spec fn element_name(id: ElementId) -> Seq<char> {
    match id {
        ElementId::Event => "event"@,
        ElementId::Phase => "phase"@,
        ElementId::Clock => "clock"@,
        ElementId::Home => "home"@,
        ElementId::Away => "away"@,
        ElementId::Score => "score"@,
    }
}

/// The elements in their fixed order.
pub open spec fn element_at(i: int) -> ElementId {
    if i == 0 {
        ElementId::Event
    } else if i == 1 {
        ElementId::Phase
    } else if i == 2 {
        ElementId::Clock
    } else if i == 3 {
        ElementId::Home
    } else if i == 4 {
        ElementId::Away
    } else {
        ElementId::Score
    }
}

impl ElementId {
    /// The name under which the element's placement is stored.
    pub fn name(&self) -> (r: &'static str)
        ensures
            r@ == element_name(*self),
    {
        match self {
            ElementId::Event => "event",
            ElementId::Phase => "phase",
            ElementId::Clock => "clock",
            ElementId::Home => "home",
            ElementId::Away => "away",
            ElementId::Score => "score",
        }
    }
}

/// Element `i` in the fixed order event, phase, clock, home, away, score.
pub fn element_id_at(i: usize) -> (r: ElementId)
    requires
        i < ELEMENT_COUNT,
    ensures
        r == element_at(i as int),
{
    match i {
        0 => ElementId::Event,
        1 => ElementId::Phase,
        2 => ElementId::Clock,
        3 => ElementId::Home,
        4 => ElementId::Away,
        _ => ElementId::Score,
    }
}

/// The element stored under name `s`; `None` for a name that no element
/// has (such entries of a stored layout are ignored).
pub fn known_element_id(s: &str) -> (r: Option<ElementId>)
    ensures
        r matches Some(id) ==> element_name(id) == s@,
        r is None ==> forall|id: ElementId| element_name(id) != s@,
{
    let mut i: usize = 0;
    while i < ELEMENT_COUNT
        invariant
            i <= ELEMENT_COUNT,
            forall|j: int| 0 <= j < i ==> element_name(#[trigger] element_at(j)) != s@,
        decreases ELEMENT_COUNT - i,
    {
        let id = element_id_at(i);
        if text_equals(id.name(), s) {
            return Some(id);
        }
        i = i + 1;
    }
    assert forall|id: ElementId| element_name(id) != s@ by {
        match id {
            ElementId::Event => assert(element_name(element_at(0)) != s@),
            ElementId::Phase => assert(element_name(element_at(1)) != s@),
            ElementId::Clock => assert(element_name(element_at(2)) != s@),
            ElementId::Home => assert(element_name(element_at(3)) != s@),
            ElementId::Away => assert(element_name(element_at(4)) != s@),
            ElementId::Score => assert(element_name(element_at(5)) != s@),
        }
    }
    None
}

/// The abstract selection: the selected elements in the order they were
/// selected, and the element being dragged.
pub struct SelectionView {
    pub selected: Seq<ElementId>,
    pub dragging: Option<ElementId>,
}

impl SelectionView {
    /// No element is selected twice, and the element being dragged is
    /// selected.
    pub open spec fn wf(self) -> bool {
        &&& self.selected.no_duplicates()
        &&& (self.dragging matches Some(d) ==> self.selected.contains(d))
    }

    /// The selection after a primary press that hit `hit` (or nothing),
    /// with Ctrl held or not. Ctrl+click toggles the element in or out of
    /// the selection and starts no drag; a plain click on an unselected
    /// element selects it alone, on a selected one keeps the group, and in
    /// both cases starts dragging it; a plain click on nothing clears the
    /// selection.
    pub open spec fn pressed(self, hit: Option<ElementId>, ctrl: bool) -> SelectionView {
        match hit {
            Some(id) => if ctrl {
                SelectionView {
                    selected: if self.selected.contains(id) {
                        self.selected.remove_value(id)
                    } else {
                        self.selected.push(id)
                    },
                    dragging: None,
                }
            } else {
                SelectionView {
                    selected: if self.selected.contains(id) {
                        self.selected
                    } else {
                        seq![id]
                    },
                    dragging: Some(id),
                }
            },
            None => SelectionView {
                selected: if ctrl {
                    self.selected
                } else {
                    Seq::empty()
                },
                dragging: None,
            },
        }
    }

    /// The selection once the button is released: no drag.
    pub open spec fn drag_ended(self) -> SelectionView {
        SelectionView { selected: self.selected, dragging: None }
    }
}

/// The selected elements of the big screen and the one being dragged. Its
/// operations keep it well formed (`SelectionView::wf`).
pub struct Selection {
    selected: Vec<ElementId>,
    dragging: Option<ElementId>,
}

impl View for Selection {
    type V = SelectionView;

    closed spec fn view(&self) -> SelectionView {
        SelectionView { selected: self.selected@, dragging: self.dragging }
    }
}

impl Selection {
    /// Nothing selected, nothing dragged.
    pub fn new() -> (r: Self)
        ensures
            r@.selected == Seq::<ElementId>::empty(),
            r@.dragging is None,
            r@.wf(),
    {
        Selection { selected: Vec::new(), dragging: None }
    }

    /// The selected elements, in the order they were selected.
    pub fn selected(&self) -> (r: &Vec<ElementId>)
        ensures
            r@ == self@.selected,
    {
        &self.selected
    }

    /// The element being dragged.
    pub fn dragging(&self) -> (r: Option<ElementId>)
        ensures
            r == self@.dragging,
    {
        self.dragging
    }

    /// The position of the first occurrence of `id` among the selected.
    fn position(&self, id: ElementId) -> (r: Option<usize>)
        ensures
            match r {
                Some(i) => {
                    &&& i < self@.selected.len()
                    &&& self@.selected[i as int] == id
                    &&& forall|j: int| 0 <= j < i ==> self@.selected[j] != id
                },
                None => !self@.selected.contains(id),
            },
    {
        let mut i: usize = 0;
        while i < self.selected.len()
            invariant
                i <= self.selected@.len(),
                forall|j: int| 0 <= j < i ==> self.selected@[j] != id,
            decreases self.selected@.len() - i,
        {
            if self.selected[i] == id {
                return Some(i);
            }
            i = i + 1;
        }
        None
    }

    /// Whether `id` is selected.
    pub fn is_selected(&self, id: ElementId) -> (r: bool)
        ensures
            r == self@.selected.contains(id),
    {
        match self.position(id) {
            Some(_) => true,
            None => false,
        }
    }

    /// Whether anything is selected.
    pub fn has_selection(&self) -> (r: bool)
        ensures
            r == (self@.selected.len() > 0),
    {
        !self.selected.is_empty()
    }

    /// A primary press that hit `hit` (or nothing), Ctrl held or not.
    pub fn press(&mut self, hit: Option<ElementId>, ctrl: bool)
        requires
            old(self)@.wf(),
        ensures
            final(self)@ == old(self)@.pressed(hit, ctrl),
            final(self)@.wf(),
    {
        match hit {
            Some(id) => {
                if ctrl {
                    self.dragging = None;
                    match self.position(id) {
                        Some(idx) => {
                            proof {
                                self@.selected.index_of_first_ensures(id);
                                lemma_remove_value_membership(self@.selected, id);
                            }
                            self.selected.remove(idx);
                        },
                        None => {
                            self.selected.push(id);
                        },
                    }
                } else {
                    if !self.is_selected(id) {
                        self.dragging = None;
                        self.selected = vec![id];
                        proof {
                            assert(self@.selected =~= seq![id]);
                        }
                    }
                    proof {
                        assert(self@.selected.contains(id)) by {
                            if self@.selected =~= seq![id] {
                                assert(self@.selected[0] == id);
                            }
                        }
                    }
                    self.dragging = Some(id);
                }
            },
            None => {
                self.dragging = None;
                if !ctrl {
                    self.selected.clear();
                }
            },
        }
    }

    /// The primary button was released: the drag ends.
    pub fn end_drag(&mut self)
        requires
            old(self)@.wf(),
        ensures
            final(self)@ == old(self)@.drag_ended(),
            final(self)@.wf(),
    {
        self.dragging = None;
    }
}

/// Removing the only occurrence of `id` from a sequence without duplicates
/// removes `id` and keeps every other element, still without duplicates.
proof fn lemma_remove_value_membership(s: Seq<ElementId>, id: ElementId)
    requires
        s.no_duplicates(),
        s.contains(id),
    ensures
        !s.remove_value(id).contains(id),
        forall|x: ElementId| x != id ==> (s.remove_value(id).contains(x) <==> s.contains(x)),
        s.remove_value(id).no_duplicates(),
{
    s.index_of_first_ensures(id);
    let i = s.index_of_first(id).unwrap();
    let r = s.remove(i);
    s.remove_ensures(i);
    assert(r == s.remove_value(id));
    assert forall|k: int| 0 <= k < r.len() implies r[k] != id by {
        let k0 = if k < i { k } else { k + 1 };
        assert(r[k] == s[k0]);
    }
    assert forall|x: ElementId| x != id implies (r.contains(x) <==> s.contains(x)) by {
        if s.contains(x) {
            let k = choose|k: int| 0 <= k < s.len() && s[k] == x;
            if k < i {
                assert(r[k] == x);
            } else {
                assert(k != i);
                assert(r[k - 1] == x);
            }
        }
        if r.contains(x) {
            let k = choose|k: int| 0 <= k < r.len() && r[k] == x;
            let k0 = if k < i { k } else { k + 1 };
            assert(s[k0] == x);
        }
    }
    assert forall|a: int, b: int| 0 <= a < r.len() && 0 <= b < r.len() && a != b implies r[a]
        != r[b] by {
        let a0 = if a < i { a } else { a + 1 };
        let b0 = if b < i { b } else { b + 1 };
        assert(r[a] == s[a0]);
        assert(r[b] == s[b0]);
    }
}

/// A Ctrl+click toggles the clicked element in or out of the selection and
/// leaves every other element as it was; the selection stays well formed.
pub proof fn law_ctrl_click_toggles(v: SelectionView, id: ElementId, other: ElementId)
    requires
        v.wf(),
        other != id,
    ensures
        v.pressed(Some(id), true).selected.contains(id) == !v.selected.contains(id),
        v.pressed(Some(id), true).selected.contains(other) == v.selected.contains(other),
        v.pressed(Some(id), true).wf(),
{
    if v.selected.contains(id) {
        lemma_remove_value_membership(v.selected, id);
    } else {
        let p = v.selected.push(id);
        assert(p[p.len() - 1] == id);
        if v.selected.contains(other) {
            let k = choose|k: int| 0 <= k < v.selected.len() && v.selected[k] == other;
            assert(p[k] == other);
        }
        if p.contains(other) {
            let k = choose|k: int| 0 <= k < p.len() && p[k] == other;
            assert(v.selected[k] == other);
        }
    }
}

/// Ctrl+clicking the same element twice gives back the same set of selected
/// elements.
pub proof fn law_ctrl_click_twice_restores(v: SelectionView, id: ElementId)
    requires
        v.wf(),
    ensures
        v.pressed(Some(id), true).pressed(Some(id), true).selected.to_set()
            == v.selected.to_set(),
{
    let once = v.pressed(Some(id), true);
    let twice = once.pressed(Some(id), true);
    assert forall|x: ElementId| #[trigger] twice.selected.contains(x) == v.selected.contains(x) by {
        if x == id {
            let other = if id == ElementId::Event {
                ElementId::Phase
            } else {
                ElementId::Event
            };
            law_ctrl_click_toggles(v, id, other);
            law_ctrl_click_toggles(once, id, other);
        } else {
            law_ctrl_click_toggles(v, id, x);
            law_ctrl_click_toggles(once, id, x);
        }
    }
    assert(twice.selected.to_set() =~= v.selected.to_set());
}

/// A plain click on a selected element keeps the whole group selected and
/// drags it, so that all selected elements move together; a plain click on
/// an unselected element selects it alone.
pub proof fn law_plain_click(v: SelectionView, id: ElementId)
    ensures
        v.selected.contains(id) ==> v.pressed(Some(id), false).selected == v.selected,
        !v.selected.contains(id) ==> v.pressed(Some(id), false).selected == seq![id],
        v.pressed(Some(id), false).dragging == Some(id),
        v.pressed(Some(id), false).selected.contains(id),
{
    if !v.selected.contains(id) {
        assert(seq![id][0] == id);
    }
}

} // verus!
