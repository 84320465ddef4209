//! The loading screen: shown while some kinds of loading are still pending.

use vstd::prelude::*;
use crate::gui::dialog::{Dialog, IDialog};

verus! {

/// A kind of loading the application waits for.
pub trait LoadingKind: Sized {
    fn same_kind(&self, other: &Self) -> (res: bool)
        ensures
            res == (*self == *other);
}

/// The kinds of loading still pending, each at most once.
pub struct LoadingQueue<K> {
    pending: Vec<K>,
}

impl<K> View for LoadingQueue<K> {
    type V = Set<K>;

    closed spec fn view(&self) -> Set<K> {
        self.pending@.to_set()
    }
}

impl<K: LoadingKind> LoadingQueue<K> {
    /// Nothing pending.
    pub fn new() -> (res: LoadingQueue<K>)
        ensures
            res@ == Set::<K>::empty(),
    {
        let res = LoadingQueue { pending: Vec::new() };
        assert(res@ =~= Set::<K>::empty());
        res
    }

    /// `kind` is pending (again, or still).
    pub fn add(&mut self, kind: K)
        ensures
            final(self)@ == old(self)@.insert(kind),
    {
        let mut i: usize = 0;
        while i < self.pending.len()
            invariant
                i <= self.pending@.len(),
                self.pending@ == old(self).pending@,
                forall|k: int| 0 <= k < i ==> self.pending@[k] != kind,
            decreases self.pending@.len() - i,
        {
            if self.pending[i].same_kind(&kind) {
                assert(self@.contains(kind));
                assert(self@.insert(kind) =~= self@);
                return;
            }
            i = i + 1;
        }
        let ghost before = self.pending@;
        self.pending.push(kind);
        assert(self.pending@.to_set() =~= before.to_set().insert(kind)) by {
            assert forall|x: K| self.pending@.to_set().contains(x) <==> before.to_set().insert(kind).contains(x) by {
                if x != kind && self.pending@.contains(x) {
                    let k = choose|k: int| 0 <= k < self.pending@.len() && self.pending@[k] == x;
                    assert(before[k] == x);
                }
                if before.contains(x) {
                    let k = choose|k: int| 0 <= k < before.len() && before[k] == x;
                    assert(self.pending@[k] == x);
                }
                if x == kind {
                    assert(self.pending@[before.len() as int] == x);
                }
            }
        }
    }

    /// `kind` is no longer pending.
    pub fn complete(&mut self, kind: &K)
        ensures
            final(self)@ == old(self)@.remove(*kind),
    {
        let ghost before = self.pending@;
        let mut kept: Vec<K> = Vec::new();
        while self.pending.len() > 0
            invariant
                before.to_set().remove(*kind) == self.pending@.to_set().remove(*kind).union(kept@.to_set()),
                !kept@.contains(*kind),
            decreases self.pending.len(),
        {
            let ghost s = self.pending@;
            let x = self.pending.pop().unwrap();
            proof {
                assert(s =~= self.pending@.push(x));
            }
            if !x.same_kind(kind) {
                let ghost k0 = kept@;
                kept.push(x);
                assert(self.pending@.to_set().remove(*kind).union(kept@.to_set())
                    =~= s.to_set().remove(*kind).union(k0.to_set())) by {
                    assert forall|y: K| #[trigger] kept@.contains(y) <==> (k0.contains(y) || y == x) by {
                        if kept@.contains(y) {
                            let k = choose|k: int| 0 <= k < kept@.len() && kept@[k] == y;
                            if k < k0.len() {
                                assert(k0[k] == y);
                            }
                        }
                        if k0.contains(y) {
                            let k = choose|k: int| 0 <= k < k0.len() && k0[k] == y;
                            assert(kept@[k] == y);
                        }
                        if y == x {
                            assert(kept@[k0.len() as int] == y);
                        }
                    }
                    assert forall|y: K| #[trigger] s.contains(y) <==> (self.pending@.contains(y) || y == x) by {
                        if s.contains(y) {
                            let k = choose|k: int| 0 <= k < s.len() && s[k] == y;
                            if k < self.pending@.len() {
                                assert(self.pending@[k] == y);
                            }
                        }
                        if self.pending@.contains(y) {
                            let k = choose|k: int| 0 <= k < self.pending@.len() && self.pending@[k] == y;
                            assert(s[k] == y);
                        }
                        if y == x {
                            assert(s[self.pending@.len() as int] == y);
                        }
                    }
                }
            } else {
                assert(self.pending@.to_set().remove(*kind).union(kept@.to_set())
                    =~= s.to_set().remove(*kind).union(kept@.to_set())) by {
                    assert forall|y: K| y != *kind implies (#[trigger] s.contains(y) <==> self.pending@.contains(y)) by {
                        if s.contains(y) {
                            let k = choose|k: int| 0 <= k < s.len() && s[k] == y;
                            if k < self.pending@.len() {
                                assert(self.pending@[k] == y);
                            }
                        }
                        if self.pending@.contains(y) {
                            let k = choose|k: int| 0 <= k < self.pending@.len() && self.pending@[k] == y;
                            assert(s[k] == y);
                        }
                    }
                }
            }
        }
        self.pending = kept;
        assert(self@ =~= before.to_set().remove(*kind)) by {
            assert(self.pending@.to_set().remove(*kind) =~= self.pending@.to_set());
            assert(Seq::<K>::empty().to_set() =~= Set::<K>::empty());
        }
    }

    /// Whether nothing is pending any more.
    pub fn completed(&self) -> (res: bool)
        ensures
            res == (self@ == Set::<K>::empty()),
    {
        proof {
            if self.pending@.len() > 0 {
                assert(self@.contains(self.pending@[0]));
            } else {
                assert(self@ =~= Set::<K>::empty());
            }
        }
        self.pending.len() == 0
    }
}

impl<K> IDialog for LoadingQueue<K> {
    open spec fn spec_title(&self) -> Seq<char> {
        "Loading"@
    }

    fn title(&self) -> (res: String) {
        String::from_str("Loading")
    }
}

/// The loading screen after `kind` starts loading: shown, with `kind`
/// pending besides what was.
pub open spec fn loading_insert<K>(shown: Option<Set<K>>, kind: K) -> Option<Set<K>> {
    match shown {
        Some(p) => Some(p.insert(kind)),
        None => Some(Set::<K>::empty().insert(kind)),
    }
}

/// The loading screen after `kind` is done: closed once nothing else is
/// pending.
pub open spec fn loading_complete<K>(shown: Option<Set<K>>, kind: K) -> Option<Set<K>> {
    match shown {
        Some(p) => if p.remove(kind) == Set::<K>::empty() {
            None
        } else {
            Some(p.remove(kind))
        },
        None => None,
    }
}

/// Finishing a kind of loading right after starting it leaves the loading
/// screen as finishing it alone would: in particular a screen that was
/// closed is closed again.
pub proof fn lemma_complete_undoes_insert<K>(shown: Option<Set<K>>, kind: K)
    ensures
        loading_complete(loading_insert(shown, kind), kind) == loading_complete(shown, kind),
        shown is None ==> loading_complete(loading_insert(shown, kind), kind) is None,
{
    match shown {
        Some(p) => {
            assert(p.insert(kind).remove(kind) =~= p.remove(kind));
        },
        None => {
            assert(Set::<K>::empty().insert(kind).remove(kind) =~= Set::<K>::empty());
        },
    }
}

/// The loading screen: shown exactly while something is pending.
pub struct LoadingDialog<K>(Dialog<LoadingQueue<K>>);

impl<K> View for LoadingDialog<K> {
    type V = Option<Set<K>>;

    closed spec fn view(&self) -> Option<Set<K>> {
        match self.0@ {
            Some(q) => Some(q@),
            None => None,
        }
    }
}

impl<K> LoadingDialog<K> {
    #[verifier::type_invariant]
    spec fn shown_only_while_pending(&self) -> bool {
        self.0@ matches Some(q) ==> q@ != Set::<K>::empty()
    }
}

impl<K: LoadingKind> LoadingDialog<K> {
    /// The loading screen is never shown with nothing pending.
    pub fn is_loading(&self) -> (res: bool)
        ensures
            res == self@ is Some,
            self@ matches Some(pending) ==> pending != Set::<K>::empty(),
    {
        proof { use_type_invariant(self); }
        self.0.is_open()
    }

    /// The title of the loading screen, when it is shown.
    pub fn title(&self) -> (res: Option<String>)
        ensures
            res matches Some(t) ==> self@ is Some && t@ == "Loading"@,
            res is None ==> self@ is None,
    {
        self.0.title()
    }

    pub fn closed() -> (res: LoadingDialog<K>)
        ensures
            res@ == None::<Set<K>>,
    {
        LoadingDialog(Dialog::closed())
    }

    /// Shows the loading screen, with `kind` pending.
    pub fn insert(&mut self, kind: K)
        ensures
            final(self)@ == loading_insert(old(self)@, kind),
    {
        proof { use_type_invariant(&*self); }
        let mut queue = match self.0.take() {
            Some(q) => q,
            None => LoadingQueue::new(),
        };
        queue.add(kind);
        proof {
            assert(queue@.contains(kind));
        }
        self.0 = Dialog::new(queue);
    }

    /// `kind` is done; the loading screen closes when nothing else is pending.
    pub fn complete(&mut self, kind: &K)
        ensures
            final(self)@ == loading_complete(old(self)@, *kind),
    {
        proof { use_type_invariant(&*self); }
        let mut queue = match self.0.take() {
            Some(q) => q,
            None => {
                return;
            },
        };
        queue.complete(kind);
        if !queue.completed() {
            self.0 = Dialog::new(queue);
        }
    }
}

impl<K: LoadingKind> Default for LoadingDialog<K> {
    /// The loading screen, closed.
    fn default() -> (res: LoadingDialog<K>)
        ensures
            res@ == None::<Set<K>>,
    {
        LoadingDialog::closed()
    }
}

} // verus!
