//! The custom-resource object model.
//!
//! Objects are created, mutated and deleted by the cluster; the engine only
//! observes them. The part of an object the reconcile protocol reads is its
//! metadata: name, namespace, an ordered duplicate-free list of finalizer
//! identifiers, and a deletion timestamp that is present exactly when the
//! object is marked for deletion.

use vstd::prelude::*;

verus! {

/// The finalizer list with every occurrence of the given identifier removed,
/// order otherwise kept.
pub open spec fn remove_finalizer_seq(fins: Seq<Seq<char>>, fin: Seq<char>) -> Seq<Seq<char>> {
    fins.filter(|f: Seq<char>| f != fin)
}

/// No identifier occurs twice on the list.
pub open spec fn finalizers_unique(fins: Seq<Seq<char>>) -> bool {
    forall|i: int, j: int| 0 <= i < j < fins.len() ==> fins[i] != fins[j]
}

/// Removal drops exactly the removed identifier: whatever the result holds,
/// the original held and it is not the removed one, and every other
/// identifier the original held is kept.
pub proof fn lemma_remove_finalizer_seq_membership(fins: Seq<Seq<char>>, fin: Seq<char>)
    ensures
        forall|x: Seq<char>|
            #[trigger] remove_finalizer_seq(fins, fin).contains(x) ==> fins.contains(x) && x != fin,
        forall|x: Seq<char>|
            #[trigger] fins.contains(x) && x != fin ==> remove_finalizer_seq(fins, fin).contains(x),
    decreases fins.len(),
{
    reveal(Seq::filter);
    let rem = remove_finalizer_seq(fins, fin);
    if fins.len() == 0 {
    } else {
        let prev = fins.drop_last();
        lemma_remove_finalizer_seq_membership(prev, fin);
        let rem_prev = remove_finalizer_seq(prev, fin);
        assert forall|x: Seq<char>| #[trigger] rem.contains(x) implies fins.contains(x) && x
            != fin by {
            let i = choose|i: int| 0 <= i < rem.len() && rem[i] == x;
            if fins.last() != fin {
                assert(rem == rem_prev.push(fins.last()));
                if i < rem_prev.len() {
                    assert(rem_prev[i] == x);
                    assert(rem_prev.contains(x));
                    let j = choose|j: int| 0 <= j < prev.len() && prev[j] == x;
                    assert(fins[j] == x);
                } else {
                    assert(x == fins.last());
                    assert(fins[fins.len() - 1] == x);
                }
            } else {
                assert(rem == rem_prev);
                assert(rem_prev.contains(x));
                let j = choose|j: int| 0 <= j < prev.len() && prev[j] == x;
                assert(fins[j] == x);
            }
        }
        assert forall|x: Seq<char>| #[trigger] fins.contains(x) && x != fin implies rem.contains(
            x,
        ) by {
            let i = choose|i: int| 0 <= i < fins.len() && fins[i] == x;
            if i < fins.len() - 1 {
                assert(prev[i] == x);
                assert(prev.contains(x));
                assert(rem_prev.contains(x));
                let j = choose|j: int| 0 <= j < rem_prev.len() && rem_prev[j] == x;
                if fins.last() != fin {
                    assert(rem == rem_prev.push(fins.last()));
                    assert(rem[j] == x);
                } else {
                    assert(rem == rem_prev);
                }
            } else {
                assert(x == fins.last());
                assert(rem == rem_prev.push(x));
                assert(rem[rem.len() - 1] == x);
            }
        }
    }
}

/// Removal keeps the list duplicate-free.
pub proof fn lemma_remove_finalizer_seq_unique(fins: Seq<Seq<char>>, fin: Seq<char>)
    requires
        finalizers_unique(fins),
    ensures
        finalizers_unique(remove_finalizer_seq(fins, fin)),
    decreases fins.len(),
{
    reveal(Seq::filter);
    let rem = remove_finalizer_seq(fins, fin);
    if fins.len() == 0 {
    } else {
        let prev = fins.drop_last();
        assert(finalizers_unique(prev)) by {
            assert(forall|i: int, j: int|
                0 <= i < j < prev.len() ==> prev[i] == fins[i] && prev[j] == fins[j]);
        }
        lemma_remove_finalizer_seq_unique(prev, fin);
        lemma_remove_finalizer_seq_membership(prev, fin);
        let rem_prev = remove_finalizer_seq(prev, fin);
        if fins.last() != fin {
            assert(rem == rem_prev.push(fins.last()));
            assert(!prev.contains(fins.last())) by {
                if prev.contains(fins.last()) {
                    let j = choose|j: int| 0 <= j < prev.len() && prev[j] == fins.last();
                    assert(fins[j] == fins[fins.len() - 1]);
                }
            }
            assert(!rem_prev.contains(fins.last()));
            assert forall|i: int, j: int| 0 <= i < j < rem.len() implies rem[i] != rem[j] by {
                if j < rem.len() - 1 {
                    assert(rem[i] == rem_prev[i] && rem[j] == rem_prev[j]);
                } else {
                    assert(rem[j] == fins.last());
                    assert(rem[i] == rem_prev[i]);
                    assert(rem_prev.contains(rem_prev[i]));
                }
            }
        } else {
            assert(rem == rem_prev);
        }
    }
}

/// Mathematical model of an object's metadata.
pub struct MetaModel {
    pub name: Seq<char>,
    pub namespace: Seq<char>,
    pub finalizers: Seq<Seq<char>>,
    pub deletion_timestamp: Option<u64>,
}

impl MetaModel {
    /// The finalizer list never holds the same identifier twice.
    pub open spec fn wf(self) -> bool {
        finalizers_unique(self.finalizers)
    }

    /// Whether the given finalizer identifier is on the list.
    pub open spec fn has_finalizer(self, fin: Seq<char>) -> bool {
        self.finalizers.contains(fin)
    }

    /// Whether the cluster has marked the object for deletion.
    pub open spec fn marked_for_deletion(self) -> bool {
        self.deletion_timestamp is Some
    }

    /// The metadata after ensuring the finalizer is present: unchanged if it
    /// already is, otherwise with the finalizer appended at the end.
    pub open spec fn with_finalizer(self, fin: Seq<char>) -> MetaModel {
        if self.has_finalizer(fin) {
            self
        } else {
            MetaModel { finalizers: self.finalizers.push(fin), ..self }
        }
    }

    /// The metadata with every occurrence of the finalizer removed.
    pub open spec fn without_finalizer(self, fin: Seq<char>) -> MetaModel {
        MetaModel { finalizers: remove_finalizer_seq(self.finalizers, fin), ..self }
    }
}

/// Metadata of a namespaced object, as observed from the cluster.
pub struct ObjectMeta {
    pub name: String,
    pub namespace: String,
    pub finalizers: Vec<String>,
    pub deletion_timestamp: Option<u64>,
}

impl View for ObjectMeta {
    type V = MetaModel;

    open spec fn view(&self) -> MetaModel {
        MetaModel {
            name: self.name@,
            namespace: self.namespace@,
            finalizers: self.finalizers.deep_view(),
            deletion_timestamp: self.deletion_timestamp,
        }
    }
}

/// A named, namespaced record of a custom-resource kind: metadata, a spec
/// payload describing the desired state, and an optional status payload.
pub struct ResourceObject<Sp, St> {
    pub metadata: ObjectMeta,
    pub spec: Sp,
    pub status: Option<St>,
}

impl<Sp, St> ResourceObject<Sp, St> {
    /// Structural invariant: the finalizer list is duplicate-free.
    pub open spec fn wf(self) -> bool {
        self.metadata@.wf()
    }
}

/// Whether the metadata carries the given finalizer identifier.
pub fn has_finalizer(meta: &ObjectMeta, fin: &String) -> (r: bool)
    ensures
        r == meta@.has_finalizer(fin@),
{
    let mut i: usize = 0;
    while i < meta.finalizers.len()
        invariant
            0 <= i <= meta.finalizers.len(),
            forall|k: int| 0 <= k < i ==> meta@.finalizers[k] != fin@,
        decreases meta.finalizers.len() - i,
    {
        if meta.finalizers[i].eq(fin) {
            assert(meta@.finalizers[i as int] == fin@);
            return true;
        }
        i += 1;
    }
    assert(!meta@.has_finalizer(fin@)) by {
        assert(forall|k: int| 0 <= k < meta@.finalizers.len() ==> meta@.finalizers[k] != fin@);
    }
    false
}

/// The finalizer list with the given identifier appended at the end.
pub fn finalizers_with(meta: &ObjectMeta, fin: &String) -> (r: Vec<String>)
    ensures
        r.deep_view() == meta@.finalizers.push(fin@),
{
    let mut out: Vec<String> = Vec::new();
    proof {
        assert(out.deep_view() =~= meta@.finalizers.take(0));
    }
    let mut i: usize = 0;
    while i < meta.finalizers.len()
        invariant
            0 <= i <= meta.finalizers.len(),
            out.deep_view() == meta@.finalizers.take(i as int),
        decreases meta.finalizers.len() - i,
    {
        let ghost pre = out.deep_view();
        out.push(meta.finalizers[i].clone());
        proof {
            assert(out.deep_view() =~= pre.push(meta@.finalizers[i as int]));
            assert(out.deep_view() =~= meta@.finalizers.take(i as int + 1));
        }
        i += 1;
    }
    let ghost pre = out.deep_view();
    out.push(fin.clone());
    proof {
        assert(pre =~= meta@.finalizers);
        assert(out.deep_view() =~= pre.push(fin@));
    }
    out
}

/// The finalizer list with every occurrence of the given identifier removed.
pub fn finalizers_without(meta: &ObjectMeta, fin: &String) -> (r: Vec<String>)
    ensures
        r.deep_view() == remove_finalizer_seq(meta@.finalizers, fin@),
{
    let mut out: Vec<String> = Vec::new();
    proof {
        reveal(Seq::filter);
        assert(meta@.finalizers.take(0) =~= Seq::<Seq<char>>::empty());
        assert(out.deep_view() =~= remove_finalizer_seq(meta@.finalizers.take(0), fin@));
    }
    let mut i: usize = 0;
    while i < meta.finalizers.len()
        invariant
            0 <= i <= meta.finalizers.len(),
            out.deep_view() == remove_finalizer_seq(meta@.finalizers.take(i as int), fin@),
        decreases meta.finalizers.len() - i,
    {
        let ghost pre = out.deep_view();
        let ghost prefix = meta@.finalizers.take(i as int);
        let ghost longer = meta@.finalizers.take(i as int + 1);
        let keep = !meta.finalizers[i].eq(fin);
        if keep {
            out.push(meta.finalizers[i].clone());
        }
        proof {
            reveal(Seq::filter);
            assert(longer =~= prefix.push(meta@.finalizers[i as int]));
            assert(longer.drop_last() =~= prefix);
            assert(longer.last() == meta@.finalizers[i as int]);
            if keep {
                assert(out.deep_view() =~= pre.push(meta@.finalizers[i as int]));
            }
            assert(out.deep_view() =~= remove_finalizer_seq(longer, fin@));
        }
        i += 1;
    }
    proof {
        assert(meta@.finalizers.take(meta.finalizers.len() as int) =~= meta@.finalizers);
    }
    out
}

/// What ensuring a finalizer does to the metadata: the invariant and every
/// other field are kept, the finalizer is present afterwards, no other
/// identifier's presence changes, and an object that already carries the
/// finalizer is untouched.
pub proof fn lemma_with_finalizer_props(m: MetaModel, fin: Seq<char>)
    requires
        m.wf(),
    ensures
        m.with_finalizer(fin).wf(),
        m.with_finalizer(fin).has_finalizer(fin),
        m.with_finalizer(fin).name == m.name,
        m.with_finalizer(fin).namespace == m.namespace,
        m.with_finalizer(fin).deletion_timestamp == m.deletion_timestamp,
        forall|o: Seq<char>|
            o != fin ==> (m.with_finalizer(fin).has_finalizer(o) <==> m.has_finalizer(o)),
        m.has_finalizer(fin) ==> m.with_finalizer(fin) == m,
{
    let w = m.with_finalizer(fin);
    if m.has_finalizer(fin) {
    } else {
        let pushed = m.finalizers.push(fin);
        assert(pushed[m.finalizers.len() as int] == fin);
        assert(w.has_finalizer(fin));
        assert(w.wf()) by {
            assert forall|i: int, j: int| 0 <= i < j < pushed.len() implies pushed[i]
                != pushed[j] by {
                if j < m.finalizers.len() {
                    assert(pushed[i] == m.finalizers[i] && pushed[j] == m.finalizers[j]);
                } else {
                    assert(pushed[j] == fin);
                    assert(pushed[i] == m.finalizers[i]);
                    assert(m.finalizers.contains(m.finalizers[i]));
                }
            }
        }
        assert forall|o: Seq<char>| o != fin implies (w.has_finalizer(o) <==> m.has_finalizer(
            o,
        )) by {
            if w.has_finalizer(o) {
                let i = choose|i: int| 0 <= i < pushed.len() && pushed[i] == o;
                assert(i < m.finalizers.len());
                assert(m.finalizers[i] == o);
            }
            if m.has_finalizer(o) {
                let i = choose|i: int| 0 <= i < m.finalizers.len() && m.finalizers[i] == o;
                assert(pushed[i] == o);
            }
        }
    }
}

/// What removing a finalizer does to the metadata: the invariant and every
/// other field are kept, the finalizer is absent afterwards, and no other
/// identifier's presence changes.
pub proof fn lemma_without_finalizer_props(m: MetaModel, fin: Seq<char>)
    requires
        m.wf(),
    ensures
        m.without_finalizer(fin).wf(),
        !m.without_finalizer(fin).has_finalizer(fin),
        m.without_finalizer(fin).name == m.name,
        m.without_finalizer(fin).namespace == m.namespace,
        m.without_finalizer(fin).deletion_timestamp == m.deletion_timestamp,
        forall|o: Seq<char>|
            o != fin ==> (m.without_finalizer(fin).has_finalizer(o) <==> m.has_finalizer(o)),
{
    let w = m.without_finalizer(fin);
    lemma_remove_finalizer_seq_membership(m.finalizers, fin);
    lemma_remove_finalizer_seq_unique(m.finalizers, fin);
    assert(!w.has_finalizer(fin)) by {
        if w.finalizers.contains(fin) {
            assert(fin != fin);
        }
    }
    assert forall|o: Seq<char>| o != fin implies (w.has_finalizer(o) <==> m.has_finalizer(o)) by {
        if m.has_finalizer(o) {
            assert(m.finalizers.contains(o) && o != fin);
        }
    }
}

} // verus!
