use vstd::prelude::*;

verus! {

/// Which vertex is grabbed, which one the cursor is over, and whether a drag is under way.
#[derive(Clone, Copy, Debug, PartialEq, Eq, Structural)]
pub struct SelectionState {
    pub active_vertex_index: Option<usize>,
    pub hover_index: Option<usize>,
    pub is_dragging: bool,
}

/// A pointer or keyboard event, as far as the selection cares. `Motion`
/// carries the vertex under the cursor, as found by `nearest_hit`.
#[derive(Clone, Copy, Debug, PartialEq, Eq, Structural)]
pub enum InputKind {
    Motion { hover: Option<usize> },
    PrimaryButton { pressed: bool },
    OtherButton,
    Other,
}

/// `i` is a valid index below `n`, or there is none.
pub open spec fn index_below(i: Option<usize>, n: nat) -> bool {
    i matches Some(k) ==> k < n
}

/// Keeps an index only where it is below `n`.
pub open spec fn keep_below(i: Option<usize>, n: nat) -> Option<usize> {
    if index_below(i, n) {
        i
    } else {
        None
    }
}

impl SelectionState {
    /// A drag always has a grabbed vertex, and both indices name one of `n` handles.
    pub open spec fn wf(self, n: nat) -> bool {
        &&& self.is_dragging ==> self.active_vertex_index is Some
        &&& index_below(self.active_vertex_index, n)
        &&& index_below(self.hover_index, n)
    }

    pub open spec fn spec_cleared() -> SelectionState {
        SelectionState { active_vertex_index: None, hover_index: None, is_dragging: false }
    }

    /// The state once the handles number `n`: an index that no longer names a
    /// handle is dropped, and a drag without its vertex ends.
    pub open spec fn spec_within(self, n: nat) -> SelectionState {
        let active = keep_below(self.active_vertex_index, n);
        SelectionState {
            active_vertex_index: active,
            hover_index: keep_below(self.hover_index, n),
            is_dragging: self.is_dragging && active is Some,
        }
    }

    /// The state after one event; `cancel` tells whether the event is the cancel action.
    pub open spec fn spec_step(self, kind: InputKind, cancel: bool, n: nat) -> SelectionState {
        let moved = match kind {
            InputKind::Motion { hover } => SelectionState {
                hover_index: keep_below(hover, n),
                ..self
            },
            InputKind::PrimaryButton { pressed } => match self.hover_index {
                Some(h) => if pressed {
                    SelectionState { active_vertex_index: Some(h), is_dragging: true, ..self }
                } else {
                    SelectionState { is_dragging: false, ..self }
                },
                None => SelectionState { is_dragging: false, ..self },
            },
            _ => self,
        };
        if cancel {
            SelectionState::spec_cleared()
        } else {
            moved
        }
    }

    /// Whether the event grabs the hovered vertex.
    pub open spec fn spec_grabs(self, kind: InputKind) -> bool {
        kind == (InputKind::PrimaryButton { pressed: true }) && self.hover_index is Some
    }

    pub fn cleared() -> (r: SelectionState)
        ensures
            r == SelectionState::spec_cleared(),
    {
        SelectionState { active_vertex_index: None, hover_index: None, is_dragging: false }
    }

    pub fn within(self, n: usize) -> (r: SelectionState)
        ensures
            r == self.spec_within(n as nat),
    {
        let active = match self.active_vertex_index {
            Some(a) => if a < n {
                Some(a)
            } else {
                None
            },
            None => None,
        };
        let hover = match self.hover_index {
            Some(h) => if h < n {
                Some(h)
            } else {
                None
            },
            None => None,
        };
        SelectionState {
            active_vertex_index: active,
            hover_index: hover,
            is_dragging: self.is_dragging && active.is_some(),
        }
    }

    pub fn step(self, kind: InputKind, cancel: bool, n: usize) -> (r: SelectionState)
        ensures
            r == self.spec_step(kind, cancel, n as nat),
    {
        if cancel {
            return SelectionState::cleared();
        }
        match kind {
            InputKind::Motion { hover } => {
                let h = match hover {
                    Some(k) => if k < n {
                        Some(k)
                    } else {
                        None
                    },
                    None => None,
                };
                SelectionState { hover_index: h, ..self }
            },
            InputKind::PrimaryButton { pressed } => match self.hover_index {
                Some(h) => if pressed {
                    SelectionState { active_vertex_index: Some(h), is_dragging: true, ..self }
                } else {
                    SelectionState { is_dragging: false, ..self }
                },
                None => SelectionState { is_dragging: false, ..self },
            },
            _ => self,
        }
    }
}

/// No event takes a well-formed selection to one that drags without a grabbed vertex.
pub proof fn lemma_step_keeps_wf(s: SelectionState, kind: InputKind, cancel: bool, n: nat)
    requires
        s.wf(n),
    ensures
        s.spec_step(kind, cancel, n).wf(n),
{
}

/// Dropping the indices that no longer name a handle always leaves a well-formed selection.
pub proof fn lemma_within_wf(s: SelectionState, n: nat)
    ensures
        s.spec_within(n).wf(n),
{
}

/// `r` is the vertex with the smallest key, the lowest index among equal
/// keys, or `None` where no vertex has a key.
pub open spec fn is_nearest(keys: Seq<Option<u64>>, r: Option<usize>) -> bool {
    match r {
        Some(i) => {
            &&& i < keys.len()
            &&& keys[i as int] is Some
            &&& forall|j: int|
                0 <= j < keys.len() && (#[trigger] keys[j]) is Some ==> keys[i as int]->0 < keys[j]->0
                    || (keys[i as int]->0 == keys[j]->0 && i <= j)
        },
        None => forall|j: int| 0 <= j < keys.len() ==> (#[trigger] keys[j]) is None,
    }
}

spec fn index_of(best: Option<(usize, u64)>) -> Option<usize> {
    match best {
        Some(b) => Some(b.0),
        None => None,
    }
}

/// `keys` holds, for each vertex, a result that `hit` may give for it.
pub open spec fn keys_of<V, H: Fn(V) -> Option<u64>>(hit: H, vertices: Seq<V>, keys: Seq<Option<u64>>) -> bool {
    &&& keys.len() == vertices.len()
    &&& forall|j: int| 0 <= j < keys.len() ==> call_ensures(hit, (vertices[j],), #[trigger] keys[j])
}

/// Hit-tests the cursor against each vertex: `hit` gives `None` where the
/// cursor's ray misses a vertex's box, and otherwise the ray's distance to
/// the vertex as a key. The vertex nearest to the ray wins; among equally
/// near ones, the first.
pub fn nearest_hit<V: Copy, H: Fn(V) -> Option<u64>>(vertices: &Vec<V>, hit: H) -> (r: Option<usize>)
    requires
        forall|v: V| call_requires(hit, (v,)),
    ensures
        exists|keys: Seq<Option<u64>>| keys_of(hit, vertices@, keys) && is_nearest(keys, r),
{
    let ghost mut keys: Seq<Option<u64>> = Seq::empty();
    let mut best: Option<(usize, u64)> = None;
    let mut i: usize = 0;
    while i < vertices.len()
        invariant
            i <= vertices.len(),
            forall|v: V| call_requires(hit, (v,)),
            keys_of(hit, vertices@.subrange(0, i as int), keys),
            is_nearest(keys, index_of(best)),
            best matches Some(b) ==> keys[b.0 as int] == Some(b.1),
        decreases vertices.len() - i,
    {
        let key = hit(vertices[i]);
        proof {
            keys = keys.push(key);
        }
        match key {
            Some(k) => match best {
                None => {
                    best = Some((i, k));
                },
                Some(b) => {
                    if k < b.1 {
                        best = Some((i, k));
                    }
                },
            },
            None => {},
        }
        i += 1;
    }
    assert(vertices@.subrange(0, i as int) =~= vertices@);
    match best {
        Some(b) => Some(b.0),
        None => None,
    }
}

} // verus!
