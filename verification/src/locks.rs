//! Render coalescing: a process-wide table of in-flight render keys. A
//! request either becomes the owner of a key (and must run the pipeline and
//! later release the key) or joins the in-flight execution at the index the
//! table reports, awaiting the owner's broadcast result. Check-and-insert is
//! one call on the table, so callers that hold the table exclusively (behind
//! one mutex) can never both become owner for the same key.
use vstd::prelude::*;
use crate::map::Dimension;

verus! {

/// Identity of a render target: source archive, destination, config
/// template and dimension. Equality is structural; any differing field
/// makes a distinct render.
pub struct RenderKey {
    pub source: String,
    pub dest: String,
    pub template: String,
    pub dimension: Dimension,
}

impl RenderKey {
    /// The key's mathematical identity: its four fields as plain values.
    pub open spec fn view_spec(self) -> (Seq<char>, Seq<char>, Seq<char>, Dimension) {
        (self.source@, self.dest@, self.template@, self.dimension)
    }

    /// Structural equality of two keys.
    pub fn key_eq(&self, other: &RenderKey) -> (r: bool)
        ensures
            r == (self.view_spec() == other.view_spec()),
    {
        let dim_eq = self.dimension == other.dimension;
        self.source == other.source && self.dest == other.dest && self.template == other.template
            && dim_eq
    }
}

/// The in-flight table: the set of keys whose render is currently running,
/// kept as a duplicate-free sequence so that a caller can pair each entry
/// with its broadcast channel by index.
pub struct Locks {
    keys: Vec<RenderKey>,
}

impl Locks {
    /// The table's contents, in entry order.
    pub closed spec fn view(self) -> Seq<(Seq<char>, Seq<char>, Seq<char>, Dimension)> {
        self.keys@.map_values(|k: RenderKey| k.view_spec())
    }

    /// No key is in flight twice.
    pub closed spec fn inv(self) -> bool {
        forall|i: int, j: int|
            0 <= i < j < self.view().len() ==> self.view()[i] != self.view()[j]
    }

    /// An empty table.
    pub fn new() -> (r: Locks)
        ensures
            r@ == Seq::<(Seq<char>, Seq<char>, Seq<char>, Dimension)>::empty(),
            r.inv(),
    {
        let r = Locks { keys: Vec::new() };
        proof {
            assert(r@ =~= Seq::<(Seq<char>, Seq<char>, Seq<char>, Dimension)>::empty());
        }
        r
    }

    /// Index of `key` in the table, if present.
    fn find(&self, key: &RenderKey) -> (r: Option<usize>)
        ensures
            match r {
                Some(i) => 0 <= i < self@.len() && self@[i as int] == key.view_spec(),
                None => !self@.contains(key.view_spec()),
            },
    {
        let n = self.keys.len();
        let mut i: usize = 0;
        while i < n
            invariant
                n == self.keys@.len(),
                0 <= i <= n,
                forall|k: int| 0 <= k < i ==> self@[k] != key.view_spec(),
            decreases n - i,
        {
            if self.keys[i].key_eq(key) {
                return Some(i);
            }
            i += 1;
        }
        proof {
            assert(forall|k: int| 0 <= k < self@.len() ==> self@[k] != key.view_spec());
        }
        None
    }

    /// Atomic check-and-insert. Returns `(true, i)` — ownership — exactly
    /// when no entry for the key existed; the key is then appended at index
    /// `i`. Returns `(false, i)` — join the execution in flight — when the
    /// key already sits at index `i`; the table is unchanged.
    pub fn acquire_or_join(&mut self, key: RenderKey) -> (r: (bool, usize))
        requires
            old(self).inv(),
        ensures
            final(self).inv(),
            r.0 == !old(self)@.contains(key.view_spec()),
            r.0 ==> final(self)@ == old(self)@.push(key.view_spec()) && r.1 == old(self)@.len(),
            !r.0 ==> final(self)@ == old(self)@ && r.1 < old(self)@.len() && old(self)@[r.1 as int] == key.view_spec(),
    {
        match self.find(&key) {
            Some(i) => {
                proof {
                    assert(old(self)@.contains(key.view_spec()));
                }
                (false, i)
            },
            None => {
                let i = self.keys.len();
                let ghost pre = self@;
                self.keys.push(key);
                proof {
                    assert(self@ =~= pre.push(key.view_spec()));
                    assert forall|a: int, b: int| 0 <= a < b < self@.len() implies self@[a]
                        != self@[b] by {
                        if b + 1 == self@.len() {
                            assert(!pre.contains(key.view_spec()));
                            assert(pre[a] == self@[a]);
                        }
                    }
                }
                (true, i)
            },
        }
    }

    /// Remove the key's entry once the owning execution has completed.
    /// Returns the index the entry held (so the caller can retire the
    /// broadcast channel it paired with it), or `None` when no entry
    /// existed.
    pub fn release(&mut self, key: &RenderKey) -> (r: Option<usize>)
        requires
            old(self).inv(),
        ensures
            final(self).inv(),
            r is Some == old(self)@.contains(key.view_spec()),
            match r {
                Some(i) => 0 <= i < old(self)@.len() && old(self)@[i as int] == key.view_spec()
                    && final(self)@ == old(self)@.remove(i as int),
                None => final(self)@ == old(self)@,
            },
    {
        match self.find(key) {
            Some(i) => {
                proof {
                    assert(old(self)@.contains(key.view_spec()));
                }
                let ghost pre = self@;
                self.keys.remove(i);
                proof {
                    assert(self@ =~= pre.remove(i as int));
                }
                Some(i)
            },
            None => None,
        }
    }

    /// Number of renders in flight.
    pub fn len(&self) -> (r: usize)
        ensures
            r == self@.len(),
    {
        self.keys.len()
    }
}

/// Single-flight law: when a request finds no entry for its key it becomes
/// the owner, and the table then holds the key; any request that arrives
/// while that entry is in place finds it and joins instead of starting a
/// second execution. Together with `acquire_or_join`'s contract this means
/// at most one concurrent execution per key.
pub proof fn lemma_second_request_joins(
    table: Seq<(Seq<char>, Seq<char>, Seq<char>, Dimension)>,
    key: (Seq<char>, Seq<char>, Seq<char>, Dimension),
)
    requires
        !table.contains(key),
    ensures
        table.push(key).contains(key),
{
    assert(table.push(key)[table.len() as int] == key);
}

} // verus!
