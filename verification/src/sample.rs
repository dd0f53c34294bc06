//! Pointer samples and the button edges between two consecutive samples.

use vstd::prelude::*;

verus! {

/// One reading of the pointer: where it is and which buttons are held.
///
/// `buttons[i]` tells whether the button with id `i` is held; a button whose
/// id lies beyond the end of the vector counts as released.
#[derive(Debug)]
pub struct PointerSample {
    pub position: (i32, i32),
    pub buttons: Vec<bool>,
}

/// The mathematical content of a [`PointerSample`].
pub struct SampleView {
    pub position: (i32, i32),
    pub buttons: Seq<bool>,
}

impl View for PointerSample {
    type V = SampleView;

    open spec fn view(&self) -> SampleView {
        SampleView { position: self.position, buttons: self.buttons@ }
    }
}

impl Clone for PointerSample {
    fn clone(&self) -> (copy: PointerSample)
        ensures
            copy@ == self@,
    {
        let mut buttons: Vec<bool> = Vec::new();
        let mut i: usize = 0;
        while i < self.buttons.len()
            invariant
                i <= self.buttons.len(),
                buttons@ == self.buttons@.take(i as int),
            decreases self.buttons.len() - i,
        {
            buttons.push(self.buttons[i]);
            i += 1;
        }
        assert(self.buttons@.take(self.buttons@.len() as int) =~= self.buttons@);
        PointerSample { position: (self.position.0, self.position.1), buttons }
    }
}

/// Direction of a change in a button's state.
#[derive(Clone, Copy, Debug, PartialEq, Eq, Structural)]
pub enum ButtonEdge {
    Pressed,
    Released,
}

/// A button that changed state between two consecutive samples.
#[derive(Clone, Copy, Debug, PartialEq, Eq, Structural)]
pub struct ButtonTransition {
    pub button_index: usize,
    pub edge: ButtonEdge,
}

/// Whether button `i` is held according to `buttons`.
pub open spec fn is_down(buttons: Seq<bool>, i: int) -> bool {
    0 <= i < buttons.len() && buttons[i]
}

/// The edge of button `i` from `prev` to `cur`, if its state changed.
pub open spec fn edge_between(prev: Seq<bool>, cur: Seq<bool>, i: int) -> Option<ButtonEdge> {
    if is_down(cur, i) && !is_down(prev, i) {
        Some(ButtonEdge::Pressed)
    } else if !is_down(cur, i) && is_down(prev, i) {
        Some(ButtonEdge::Released)
    } else {
        None
    }
}

/// The transitions of kind `edge` among the buttons with id below `upto`,
/// by ascending id.
pub open spec fn edges_below(prev: Seq<bool>, cur: Seq<bool>, edge: ButtonEdge, upto: nat) -> Seq<
    ButtonTransition,
>
    decreases upto,
{
    if upto == 0 {
        Seq::empty()
    } else {
        let i = (upto - 1) as nat;
        let rest = edges_below(prev, cur, edge, i);
        if edge_between(prev, cur, i as int) == Some(edge) {
            rest.push(ButtonTransition { button_index: i as usize, edge })
        } else {
            rest
        }
    }
}

/// Number of button ids that either sample speaks of.
pub open spec fn button_span(prev: Seq<bool>, cur: Seq<bool>) -> nat {
    if prev.len() >= cur.len() {
        prev.len()
    } else {
        cur.len()
    }
}

/// Every transition from `prev` to `cur`: the presses by ascending button
/// id, then the releases by ascending button id.
pub open spec fn transitions_between(prev: Seq<bool>, cur: Seq<bool>) -> Seq<ButtonTransition> {
    let n = button_span(prev, cur);
    edges_below(prev, cur, ButtonEdge::Pressed, n) + edges_below(prev, cur, ButtonEdge::Released, n)
}

impl PointerSample {
    /// A sample at `(x, y)` with the given button states.
    pub fn new(x: i32, y: i32, buttons: Vec<bool>) -> (sample: PointerSample)
        ensures
            sample@ == (SampleView { position: (x, y), buttons: buttons@ }),
    {
        PointerSample { position: (x, y), buttons }
    }

    /// Whether the button with id `index` is held in this sample.
    pub fn is_pressed(&self, index: usize) -> (down: bool)
        ensures
            down == is_down(self.buttons@, index as int),
    {
        index < self.buttons.len() && self.buttons[index]
    }

    /// The edge of button `index` between `previous` and this sample.
    pub fn edge_since(&self, previous: &PointerSample, index: usize) -> (edge: Option<ButtonEdge>)
        ensures
            edge == edge_between(previous.buttons@, self.buttons@, index as int),
    {
        let now_down = self.is_pressed(index);
        let was_down = previous.is_pressed(index);
        if now_down && !was_down {
            Some(ButtonEdge::Pressed)
        } else if !now_down && was_down {
            Some(ButtonEdge::Released)
        } else {
            None
        }
    }

    /// All button transitions between `previous` and this sample: presses
    /// first, then releases, each group by ascending button id.
    pub fn transitions_since(&self, previous: &PointerSample) -> (found: Vec<ButtonTransition>)
        ensures
            found@ == transitions_between(previous.buttons@, self.buttons@),
    {
        let n = if previous.buttons.len() >= self.buttons.len() {
            previous.buttons.len()
        } else {
            self.buttons.len()
        };
        let mut found: Vec<ButtonTransition> = Vec::new();
        let mut i: usize = 0;
        while i < n
            invariant
                i <= n,
                n == button_span(previous.buttons@, self.buttons@),
                found@ == edges_below(previous.buttons@, self.buttons@, ButtonEdge::Pressed, i as nat),
            decreases n - i,
        {
            if self.is_pressed(i) && !previous.is_pressed(i) {
                found.push(ButtonTransition { button_index: i, edge: ButtonEdge::Pressed });
            }
            i += 1;
        }
        let ghost presses = found@;
        let mut j: usize = 0;
        while j < n
            invariant
                j <= n,
                n == button_span(previous.buttons@, self.buttons@),
                found@ == presses + edges_below(
                    previous.buttons@,
                    self.buttons@,
                    ButtonEdge::Released,
                    j as nat,
                ),
            decreases n - j,
        {
            if !self.is_pressed(j) && previous.is_pressed(j) {
                found.push(ButtonTransition { button_index: j, edge: ButtonEdge::Released });
            }
            j += 1;
        }
        found
    }
}

/// Every transition of a kind below `upto` names a button below `upto` that
/// has that edge, and carries that kind.
pub proof fn lemma_edges_below_are_edges(
    prev: Seq<bool>,
    cur: Seq<bool>,
    edge: ButtonEdge,
    upto: nat,
)
    requires
        upto <= usize::MAX,
    ensures
        edges_below(prev, cur, edge, upto).len() <= upto,
        forall|k: int|
            0 <= k < edges_below(prev, cur, edge, upto).len() ==> {
                let t = #[trigger] edges_below(prev, cur, edge, upto)[k];
                &&& t.edge == edge
                &&& t.button_index < upto
                &&& edge_between(prev, cur, t.button_index as int) == Some(edge)
            },
    decreases upto,
{
    if upto > 0 {
        lemma_edges_below_are_edges(prev, cur, edge, (upto - 1) as nat);
    }
}

/// A button with an edge of the given kind below `upto` is reported.
pub proof fn lemma_edges_below_are_complete(
    prev: Seq<bool>,
    cur: Seq<bool>,
    edge: ButtonEdge,
    upto: nat,
    i: int,
)
    requires
        upto <= usize::MAX,
        0 <= i < upto,
        edge_between(prev, cur, i) == Some(edge),
    ensures
        edges_below(prev, cur, edge, upto).contains(
            ButtonTransition { button_index: i as usize, edge },
        ),
    decreases upto,
{
    let here = edges_below(prev, cur, edge, upto);
    let t = ButtonTransition { button_index: i as usize, edge };
    if i == upto - 1 {
        assert(here.last() == t);
    } else {
        lemma_edges_below_are_complete(prev, cur, edge, (upto - 1) as nat, i);
        let rest = edges_below(prev, cur, edge, (upto - 1) as nat);
        let k = choose|k: int| 0 <= k < rest.len() && rest[k] == t;
        assert(here[k] == t);
    }
}

/// Two equal button states have no transition between them.
pub proof fn lemma_no_transition_without_change(buttons: Seq<bool>)
    ensures
        transitions_between(buttons, buttons) == Seq::<ButtonTransition>::empty(),
{
    lemma_no_edges_without_change(buttons, ButtonEdge::Pressed, buttons.len());
    lemma_no_edges_without_change(buttons, ButtonEdge::Released, buttons.len());
}

proof fn lemma_no_edges_without_change(buttons: Seq<bool>, edge: ButtonEdge, upto: nat)
    ensures
        edges_below(buttons, buttons, edge, upto) == Seq::<ButtonTransition>::empty(),
    decreases upto,
{
    if upto > 0 {
        lemma_no_edges_without_change(buttons, edge, (upto - 1) as nat);
    }
}

} // verus!
