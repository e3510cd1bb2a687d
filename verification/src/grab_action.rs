//! The single-actor grab state machine and the hover bookkeeping that feeds
//! scroll accumulation and the visual grab indicators.
//!
//! At most one input owns the grab at any time. Once an input qualifies
//! while no other input is the actor, it becomes the actor and remains so
//! until its own predicate turns false — other inputs qualifying meanwhile
//! never preempt it. A new actor is admitted no earlier than the frame
//! after the previous one let go.
//!
//! Independently, the machine tracks which inputs hover near the surface,
//! and which started or stopped hovering this frame. Hovering feeds scroll
//! accumulation and the grab indicators only; it plays no part in actor
//! selection.

use vstd::prelude::*;

use crate::cell::distinct_ids;
use crate::ids::contains_id;
use crate::input::{
    distinct_inputs, grab_predicate, grab_qualifies, has_input, hover_predicate, hover_qualifies,
    input_by_id, find_input, InputSnapshot,
};

verus! {

/// The identity of the first input, in frame order, that qualifies to grab,
/// scanning from position `i`.
pub open spec fn first_grabber_from(s: Seq<InputSnapshot>, i: int) -> Option<u64>
    decreases s.len() - i,
{
    if i < 0 || i >= s.len() {
        None
    } else if grab_predicate(s[i]) {
        Some(s[i].id)
    } else {
        first_grabber_from(s, i + 1)
    }
}

/// The identity of the first input, in frame order, that qualifies to grab.
pub open spec fn first_grabber(s: Seq<InputSnapshot>) -> Option<u64> {
    first_grabber_from(s, 0)
}

/// A chosen first grabber is present in the frame and qualifies.
pub proof fn lemma_first_grabber_from(s: Seq<InputSnapshot>, i: int)
    requires
        0 <= i <= s.len(),
        distinct_inputs(s),
    ensures
        match first_grabber_from(s, i) {
            Some(a) => has_input(s, a) && grab_predicate(input_by_id(s, a)),
            None => forall|k: int| i <= k < s.len() ==> !grab_predicate(s[k]),
        },
    decreases s.len() - i,
{
    if i >= s.len() {
    } else if grab_predicate(s[i]) {
        let a = s[i].id;
        assert(has_input(s, a)) by {
            assert(0 <= i < s.len() && s[i].id == a);
        }
        let w = choose|k: int| 0 <= k < s.len() && s[k].id == a;
        if w < i {
            assert(s[w].id != s[i].id);
        } else if w > i {
            assert(s[i].id != s[w].id);
        }
        assert(input_by_id(s, a) == s[i]);
    } else {
        lemma_first_grabber_from(s, i + 1);
    }
}

/// The identities of the inputs hovering this frame, in frame order,
/// scanning from position `i`.
pub open spec fn hover_ids_from(s: Seq<InputSnapshot>, i: int) -> Seq<u64>
    decreases s.len() - i,
{
    if i < 0 || i >= s.len() {
        Seq::empty()
    } else if hover_predicate(s[i]) {
        seq![s[i].id] + hover_ids_from(s, i + 1)
    } else {
        hover_ids_from(s, i + 1)
    }
}

/// The identities of the inputs hovering this frame, in frame order.
pub open spec fn hover_ids(s: Seq<InputSnapshot>) -> Seq<u64> {
    hover_ids_from(s, 0)
}

/// Membership in the hover list means exactly: some input of that identity
/// hovers this frame. Distinct inputs give a distinct hover list.
pub proof fn lemma_hover_ids_from(s: Seq<InputSnapshot>, i: int)
    requires
        0 <= i <= s.len(),
    ensures
        forall|id: u64| #[trigger]
            hover_ids_from(s, i).contains(id) <==> exists|k: int|
                i <= k < s.len() && s[k].id == id && hover_predicate(s[k]),
        distinct_inputs(s) ==> distinct_ids(hover_ids_from(s, i)),
    decreases s.len() - i,
{
    if i >= s.len() {
        assert forall|id: u64| !(#[trigger] hover_ids_from(s, i).contains(id)) by {
            assert(hover_ids_from(s, i).len() == 0);
        }
    } else {
        lemma_hover_ids_from(s, i + 1);
        let rest = hover_ids_from(s, i + 1);
        if hover_predicate(s[i]) {
            let whole = seq![s[i].id] + rest;
            assert(whole == hover_ids_from(s, i));
            assert(whole[0] == s[i].id);
            assert forall|id: u64| #[trigger]
                whole.contains(id) implies exists|k: int|
                i <= k < s.len() && s[k].id == id && hover_predicate(s[k]) by {
                let j = choose|j: int| 0 <= j < whole.len() && whole[j] == id;
                if j == 0 {
                    assert(s[i].id == id && hover_predicate(s[i]));
                } else {
                    assert(whole[j] == rest[j - 1]);
                    assert(rest.contains(id)) by {
                        assert(rest[j - 1] == id);
                    }
                }
            }
            assert forall|id: u64|
                (exists|k: int|
                    i <= k < s.len() && s[k].id == id && hover_predicate(s[k])) implies #[trigger]
                whole.contains(id) by {
                let k = choose|k: int| i <= k < s.len() && s[k].id == id && hover_predicate(s[k]);
                if k == i {
                    assert(whole[0] == id);
                } else {
                    assert(rest.contains(id));
                    let j = choose|j: int| 0 <= j < rest.len() && rest[j] == id;
                    assert(whole[j + 1] == id);
                }
            }
            if distinct_inputs(s) {
                assert forall|p: int, q: int|
                    0 <= p < q < whole.len() implies whole[p] != whole[q] by {
                    if p == 0 {
                        assert(whole[q] == rest[q - 1]);
                        assert(rest.contains(rest[q - 1])) by {
                            assert(rest[q - 1] == rest[q - 1]);
                        }
                        let k = choose|k: int|
                            i + 1 <= k < s.len() && s[k].id == rest[q - 1] && hover_predicate(
                                s[k],
                            );
                        assert(s[i].id != s[k].id);
                    } else {
                        assert(whole[p] == rest[p - 1] && whole[q] == rest[q - 1]);
                    }
                }
            }
        }
    }
}

/// Identities in `a` (kept in order) that do not occur in `b`, scanning
/// from position `i`.
pub open spec fn diff_ids_from(a: Seq<u64>, b: Seq<u64>, i: int) -> Seq<u64>
    decreases a.len() - i,
{
    if i < 0 || i >= a.len() {
        Seq::empty()
    } else if !b.contains(a[i]) {
        seq![a[i]] + diff_ids_from(a, b, i + 1)
    } else {
        diff_ids_from(a, b, i + 1)
    }
}

/// Identities in `a`, in order, that do not occur in `b`.
pub open spec fn diff_ids(a: Seq<u64>, b: Seq<u64>) -> Seq<u64> {
    diff_ids_from(a, b, 0)
}

/// Membership in the difference means exactly: in `a` and not in `b`.
/// A distinct `a` gives a distinct difference.
pub proof fn lemma_diff_ids_from(a: Seq<u64>, b: Seq<u64>, i: int)
    requires
        0 <= i <= a.len(),
    ensures
        forall|id: u64| #[trigger]
            diff_ids_from(a, b, i).contains(id) <==> ((exists|k: int|
                i <= k < a.len() && a[k] == id) && !b.contains(id)),
        distinct_ids(a) ==> distinct_ids(diff_ids_from(a, b, i)),
    decreases a.len() - i,
{
    if i >= a.len() {
        assert forall|id: u64| !(#[trigger] diff_ids_from(a, b, i).contains(id)) by {
            assert(diff_ids_from(a, b, i).len() == 0);
        }
    } else {
        lemma_diff_ids_from(a, b, i + 1);
        let rest = diff_ids_from(a, b, i + 1);
        if !b.contains(a[i]) {
            let whole = seq![a[i]] + rest;
            assert(whole == diff_ids_from(a, b, i));
            assert(whole[0] == a[i]);
            assert forall|id: u64| #[trigger]
                whole.contains(id) implies ((exists|k: int| i <= k < a.len() && a[k] == id)
                && !b.contains(id)) by {
                let j = choose|j: int| 0 <= j < whole.len() && whole[j] == id;
                if j == 0 {
                    assert(a[i] == id);
                } else {
                    assert(whole[j] == rest[j - 1]);
                    assert(rest.contains(id)) by {
                        assert(rest[j - 1] == id);
                    }
                }
            }
            assert forall|id: u64|
                ((exists|k: int| i <= k < a.len() && a[k] == id)
                    && !b.contains(id)) implies #[trigger] whole.contains(id) by {
                let k = choose|k: int| i <= k < a.len() && a[k] == id;
                if k == i {
                    assert(whole[0] == id);
                } else {
                    assert(rest.contains(id));
                    let j = choose|j: int| 0 <= j < rest.len() && rest[j] == id;
                    assert(whole[j + 1] == id);
                }
            }
            if distinct_ids(a) {
                assert forall|p: int, q: int|
                    0 <= p < q < whole.len() implies whole[p] != whole[q] by {
                    if p == 0 {
                        assert(whole[q] == rest[q - 1]);
                        assert(rest.contains(rest[q - 1])) by {
                            assert(rest[q - 1] == rest[q - 1]);
                        }
                        let k = choose|k: int| i + 1 <= k < a.len() && a[k] == rest[q - 1];
                        assert(a[i] != a[k]);
                    } else {
                        assert(whole[p] == rest[p - 1] && whole[q] == rest[q - 1]);
                    }
                }
            }
        }
    }
}

/// Whether the current actor keeps the grab this frame: it is still among
/// the tracked inputs and its own predicate still holds.
pub open spec fn actor_keeps(s: Seq<InputSnapshot>, a: u64) -> bool {
    has_input(s, a) && grab_predicate(input_by_id(s, a))
}

/// How one update relates the machine before and after to the frame's
/// inputs: the actor slot follows compare-and-set semantics, and the hover
/// lists are recomputed from the hover predicate.
pub open spec fn grab_update_rel(pre: GrabAction, post: GrabAction, s: Seq<InputSnapshot>) -> bool {
    &&& post.actor == match pre.actor {
        Some(a) => if actor_keeps(s, a) {
            Some(a)
        } else {
            None
        },
        None => first_grabber(s),
    }
    &&& post.started == (pre.actor is None && first_grabber(s) is Some)
    &&& post.stopped == (pre.actor matches Some(a) && !actor_keeps(s, a))
    &&& post.hovering@ == hover_ids(s)
    &&& post.hover_started@ == diff_ids(hover_ids(s), pre.hovering@)
    &&& post.hover_stopped@ == diff_ids(pre.hovering@, hover_ids(s))
}

/// The single-actor grab slot with its per-frame phase flags, and the
/// hover lists the indicators and scroll accumulation read.
pub struct GrabAction {
    /// The input that owns the grab, if any. At most one at any time.
    pub actor: Option<u64>,
    /// The actor was admitted this frame.
    pub started: bool,
    /// The previous actor let go this frame.
    pub stopped: bool,
    /// Inputs hovering this frame, in frame order.
    pub hovering: Vec<u64>,
    /// Inputs that started hovering this frame.
    pub hover_started: Vec<u64>,
    /// Inputs that stopped hovering this frame.
    pub hover_stopped: Vec<u64>,
}

impl GrabAction {
    /// Well-formedness: flags consistent with the slot, hover lists
    /// without repetition.
    pub open spec fn wf(self) -> bool {
        &&& self.started ==> self.actor is Some
        &&& self.stopped ==> self.actor is None
        &&& distinct_ids(self.hovering@)
        &&& distinct_ids(self.hover_started@)
        &&& distinct_ids(self.hover_stopped@)
    }

    /// A fresh machine: no actor, nothing hovering.
    pub fn new() -> (r: GrabAction)
        ensures
            r.actor is None,
            !r.started,
            !r.stopped,
            r.hovering@ == Seq::<u64>::empty(),
            r.hover_started@ == Seq::<u64>::empty(),
            r.hover_stopped@ == Seq::<u64>::empty(),
            r.wf(),
    {
        GrabAction {
            actor: None,
            started: false,
            stopped: false,
            hovering: Vec::new(),
            hover_started: Vec::new(),
            hover_stopped: Vec::new(),
        }
    }

    /// Consume one frame of inputs: keep or release the current actor,
    /// admit a first qualifying input when the slot was free, and
    /// recompute the hover lists.
    pub fn update(&mut self, inputs: &Vec<InputSnapshot>)
        requires
            old(self).wf(),
            distinct_inputs(inputs@),
        ensures
            final(self).wf(),
            grab_update_rel(*old(self), *final(self), inputs@),
            final(self).actor matches Some(a) ==> actor_keeps(inputs@, a),
    {
        let pre_actor = self.actor;
        match pre_actor {
            Some(a) => {
                let keeps = match find_input(inputs, a) {
                    Some(data) => grab_qualifies(data),
                    None => false,
                };
                if keeps {
                    self.started = false;
                    self.stopped = false;
                } else {
                    self.actor = None;
                    self.started = false;
                    self.stopped = true;
                }
            },
            None => {
                let grabber = first_grab(inputs);
                proof {
                    lemma_first_grabber_from(inputs@, 0);
                }
                self.started = grabber.is_some();
                self.stopped = false;
                self.actor = grabber;
            },
        }
        let new_hovering = collect_hovering(inputs);
        proof {
            lemma_hover_ids_from(inputs@, 0);
            lemma_diff_ids_from(hover_ids(inputs@), self.hovering@, 0);
            lemma_diff_ids_from(self.hovering@, hover_ids(inputs@), 0);
        }
        let started_now = diff_id_vec(&new_hovering, &self.hovering);
        let stopped_now = diff_id_vec(&self.hovering, &new_hovering);
        self.hover_started = started_now;
        self.hover_stopped = stopped_now;
        self.hovering = new_hovering;
    }
}

/// The first input, in frame order, that qualifies to grab.
fn first_grab(inputs: &Vec<InputSnapshot>) -> (r: Option<u64>)
    ensures
        r == first_grabber(inputs@),
{
    let n = inputs.len();
    let mut i: usize = 0;
    while i < n
        invariant
            n == inputs@.len(),
            0 <= i <= n,
            first_grabber(inputs@) == first_grabber_from(inputs@, i as int),
        decreases n - i,
    {
        if grab_qualifies(&inputs[i]) {
            return Some(inputs[i].id);
        }
        i = i + 1;
    }
    None
}

/// The identities of the inputs hovering this frame, in frame order.
fn collect_hovering(inputs: &Vec<InputSnapshot>) -> (r: Vec<u64>)
    ensures
        r@ == hover_ids(inputs@),
{
    let n = inputs.len();
    let mut out: Vec<u64> = Vec::new();
    let mut i: usize = 0;
    while i < n
        invariant
            n == inputs@.len(),
            0 <= i <= n,
            hover_ids(inputs@) == out@ + hover_ids_from(inputs@, i as int),
        decreases n - i,
    {
        if hover_qualifies(&inputs[i]) {
            out.push(inputs[i].id);
            proof {
                assert(out@ + hover_ids_from(inputs@, i + 1) =~= out@.drop_last() + (seq![
                    inputs@[i as int].id,
                ] + hover_ids_from(inputs@, i + 1)));
            }
        }
        i = i + 1;
    }
    proof {
        assert(out@ + hover_ids_from(inputs@, n as int) =~= out@);
    }
    out
}

/// The identities of `a`, in order, that do not occur in `b`.
pub(crate) fn diff_id_vec(a: &Vec<u64>, b: &Vec<u64>) -> (r: Vec<u64>)
    ensures
        r@ == diff_ids(a@, b@),
{
    let n = a.len();
    let mut out: Vec<u64> = Vec::new();
    let mut i: usize = 0;
    while i < n
        invariant
            n == a@.len(),
            0 <= i <= n,
            diff_ids(a@, b@) == out@ + diff_ids_from(a@, b@, i as int),
        decreases n - i,
    {
        let x = *crate::ids::vec_index_u64(a, i);
        if !contains_id(b, x) {
            out.push(x);
            proof {
                assert(out@ + diff_ids_from(a@, b@, i + 1) =~= out@.drop_last() + (seq![a@[i as int]]
                    + diff_ids_from(a@, b@, i + 1)));
            }
        }
        i = i + 1;
    }
    proof {
        assert(out@ + diff_ids_from(a@, b@, n as int) =~= out@);
    }
    out
}

} // verus!
