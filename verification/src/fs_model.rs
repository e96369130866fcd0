//! An explicit model of the host filesystem that the pipeline runs against.
//!
//! The model holds the named resources as plain values, two injectable
//! faults (a denied creation and a failing read), and a counter of primitive
//! calls, so that "performs no I/O" is a provable statement. The three
//! primitives mirror the opaque collaborator the pipeline needs from a host:
//! open a resource for reading, create it empty, and read it whole.

use crate::outcome::IoErr;
use vstd::prelude::*;

verus! {

/// One named resource of the modeled filesystem.
#[derive(Debug)]
pub struct SimEntry {
    pub name: String,
    pub content: String,
    /// Whether opening this resource for reading is permitted.
    pub readable: bool,
}

/// An exclusively-owned capability to read one named resource. A handle is
/// only handed out by a successful open or create, and is given up when the
/// resource is read.
#[derive(Debug)]
pub struct ResourceHandle {
    pub(crate) name: String,
}

impl View for ResourceHandle {
    type V = Seq<char>;

    closed spec fn view(&self) -> Seq<char> {
        self.name@
    }
}

/// The modeled filesystem: the resources it holds, the faults a test can
/// inject, and how many primitive calls have been made against it.
#[derive(Debug)]
pub struct SimFs {
    pub entries: Vec<SimEntry>,
    /// When set, every creation attempt fails with this cause.
    pub create_fault: Option<IoErr>,
    /// When set, every read attempt fails with this cause.
    pub read_fault: Option<IoErr>,
    /// How many primitive calls (open, create, read) were made.
    pub calls: u64,
}

/// Whether no two entries of the sequence share a name.
pub open spec fn names_unique(es: Seq<SimEntry>) -> bool {
    forall|i: int, j: int| 0 <= i < j < es.len() ==> es[i].name@ != es[j].name@
}

/// Whether some entry of the sequence bears the name.
pub open spec fn has_name(es: Seq<SimEntry>, name: Seq<char>) -> bool {
    exists|i: int| 0 <= i < es.len() && es[i].name@ == name
}

/// The position of the entry bearing the name (meaningful only when one
/// exists and the names are unique).
pub open spec fn position_of(es: Seq<SimEntry>, name: Seq<char>) -> int {
    choose|i: int| 0 <= i < es.len() && es[i].name@ == name
}

impl SimFs {
    /// Well-formedness: no two resources share a name.
    pub open spec fn wf(self) -> bool {
        names_unique(self.entries@)
    }

    /// Whether a resource of this name exists.
    pub open spec fn contains_name(self, name: Seq<char>) -> bool {
        has_name(self.entries@, name)
    }

    /// The position of the resource of this name (meaningful only when it
    /// exists and the filesystem is well-formed).
    pub open spec fn index_of(self, name: Seq<char>) -> int {
        position_of(self.entries@, name)
    }

    /// The content of the resource of this name.
    pub open spec fn content_of(self, name: Seq<char>) -> Seq<char> {
        self.entries@[self.index_of(name)].content@
    }

    /// Whether the resource of this name may be opened for reading.
    pub open spec fn readable_of(self, name: Seq<char>) -> bool {
        self.entries@[self.index_of(name)].readable
    }

    /// The injected faults are unchanged by an operation.
    pub open spec fn same_faults(self, other: SimFs) -> bool {
        self.create_fault == other.create_fault && self.read_fault == other.read_fault
    }

    /// In a well-formed filesystem, a position holding the name is the
    /// position of the name.
    pub proof fn lemma_index_unique(self, name: Seq<char>, i: int)
        requires
            self.wf(),
            0 <= i < self.entries@.len(),
            self.entries@[i].name@ == name,
        ensures
            self.contains_name(name),
            self.index_of(name) == i,
    {
        assert(self.contains_name(name));
        let j = self.index_of(name);
        assert(0 <= j < self.entries@.len() && self.entries@[j].name@ == name);
        if i < j {
            assert(self.entries@[i].name@ != self.entries@[j].name@);
        } else if j < i {
            assert(self.entries@[j].name@ != self.entries@[i].name@);
        }
    }

    /// An empty filesystem with no resources, no injected faults and a fresh
    /// call counter.
    pub fn new() -> (r: SimFs)
        ensures
            r.wf(),
            r.entries@.len() == 0,
            r.create_fault is None,
            r.read_fault is None,
            r.calls == 0,
    {
        SimFs { entries: Vec::new(), create_fault: None, read_fault: None, calls: 0 }
    }

    /// The position of the resource of this name, if it exists.
    fn find_entry(&self, name: &String) -> (r: Option<usize>)
        ensures
            match r {
                Some(i) => 0 <= i < self.entries@.len() && self.entries@[i as int].name@
                    == name@,
                None => !self.contains_name(name@),
            },
    {
        let mut i: usize = 0;
        while i < self.entries.len()
            invariant
                i <= self.entries@.len(),
                forall|j: int| 0 <= j < i ==> self.entries@[j].name@ != name@,
            decreases self.entries@.len() - i,
        {
            if self.entries[i].name == *name {
                return Some(i);
            }
            i = i + 1;
        }
        None
    }

    /// Attempts to open the named resource for reading. Fails with
    /// `NotFound` when it is absent and with `PermissionDenied` when it is
    /// not readable; mutates nothing but the call counter.
    pub fn open(&mut self, name: &String) -> (r: Result<ResourceHandle, IoErr>)
        requires
            old(self).wf(),
            old(self).calls < u64::MAX,
        ensures
            final(self).entries@ == old(self).entries@,
            final(self).same_faults(*old(self)),
            final(self).calls == old(self).calls + 1,
            old(self).contains_name(name@) && old(self).readable_of(name@) ==> (r matches Ok(h)
                && h@ == name@),
            old(self).contains_name(name@) && !old(self).readable_of(name@) ==> r == Result::<
                ResourceHandle,
                IoErr,
            >::Err(IoErr::PermissionDenied),
            !old(self).contains_name(name@) ==> r == Result::<ResourceHandle, IoErr>::Err(
                IoErr::NotFound,
            ),
    {
        self.calls = self.calls + 1;
        match self.find_entry(name) {
            Some(i) => {
                proof {
                    self.lemma_index_unique(name@, i as int);
                }
                if self.entries[i].readable {
                    Ok(ResourceHandle { name: name.clone() })
                } else {
                    Err(IoErr::PermissionDenied)
                }
            },
            None => Err(IoErr::NotFound),
        }
    }

    /// Attempts to create the named resource, empty and readable. A set
    /// `create_fault` makes every creation fail. A resource that already
    /// exists is never overwritten: creation then hands out a handle and
    /// leaves the content alone (the accepted race between a failed open and
    /// the creation).
    pub fn create(&mut self, name: &String) -> (r: Result<ResourceHandle, IoErr>)
        requires
            old(self).wf(),
            old(self).calls < u64::MAX,
        ensures
            final(self).wf(),
            final(self).same_faults(*old(self)),
            final(self).calls == old(self).calls + 1,
            old(self).create_fault matches Some(c) ==> r == Result::<ResourceHandle, IoErr>::Err(
                c,
            ) && final(self).entries@ == old(self).entries@,
            old(self).create_fault is None && old(self).contains_name(name@) ==> (r matches Ok(h)
                && h@ == name@) && final(self).entries@ == old(self).entries@,
            old(self).create_fault is None && !old(self).contains_name(name@) ==> (r matches Ok(h)
                && h@ == name@) && final(self).contains_name(name@)
                && final(self).content_of(name@) == Seq::<char>::empty()
                && final(self).readable_of(name@)
                && final(self).entries@.len() == old(self).entries@.len() + 1,
            forall|n: Seq<char>|
                n != name@ ==> #[trigger] final(self).contains_name(n) == old(self).contains_name(
                    n,
                ),
            forall|n: Seq<char>|
                n != name@ && old(self).contains_name(n) ==> #[trigger] final(self).content_of(n)
                    == old(self).content_of(n)
                    && final(self).readable_of(n) == old(self).readable_of(n),
    {
        self.calls = self.calls + 1;
        match self.create_fault {
            Some(c) => Err(c),
            None => {
                match self.find_entry(name) {
                    Some(_i) => Ok(ResourceHandle { name: name.clone() }),
                    None => {
                        let ghost prev = *self;
                        let entry = SimEntry {
                            name: name.clone(),
                            content: String::new(),
                            readable: true,
                        };
                        let ghost pushed = entry;
                        self.entries.push(entry);
                        proof {
                            Self::lemma_append_entry(prev, *self, pushed);
                        }
                        Ok(ResourceHandle { name: name.clone() })
                    },
                }
            },
        }
    }

    /// Appending an entry of a fresh name keeps the filesystem well-formed,
    /// puts the new entry at the name, and leaves every other name as it
    /// was.
    proof fn lemma_append_entry(prev: SimFs, cur: SimFs, e: SimEntry)
        requires
            prev.wf(),
            !prev.contains_name(e.name@),
            cur.entries@ == prev.entries@.push(e),
        ensures
            cur.wf(),
            cur.contains_name(e.name@),
            cur.index_of(e.name@) == prev.entries@.len(),
            cur.content_of(e.name@) == e.content@,
            cur.readable_of(e.name@) == e.readable,
            forall|n: Seq<char>|
                n != e.name@ ==> #[trigger] cur.contains_name(n) == prev.contains_name(n),
            forall|n: Seq<char>|
                n != e.name@ && prev.contains_name(n) ==> #[trigger] cur.content_of(n)
                    == prev.content_of(n) && cur.readable_of(n) == prev.readable_of(n),
    {
        let name = e.name@;
        let len = prev.entries@.len() as int;
        assert(forall|i: int| 0 <= i < len ==> cur.entries@[i] == prev.entries@[i]);
        assert forall|i: int| 0 <= i < len implies cur.entries@[i].name@ != name by {
            if cur.entries@[i].name@ == name {
                assert(prev.contains_name(name));
            }
        }
        assert(cur.wf());
        cur.lemma_index_unique(name, len);
        assert forall|n: Seq<char>| n != name implies #[trigger] cur.contains_name(n)
            == prev.contains_name(n) by {
            if cur.contains_name(n) {
                let i = choose|i: int|
                    0 <= i < cur.entries@.len() && cur.entries@[i].name@ == n;
                assert(i < len);
                assert(prev.entries@[i].name@ == n);
            }
            if prev.contains_name(n) {
                let i = choose|i: int|
                    0 <= i < prev.entries@.len() && prev.entries@[i].name@ == n;
                assert(cur.entries@[i].name@ == n);
            }
        }
        assert forall|n: Seq<char>| n != name && prev.contains_name(n) implies #[trigger] cur
            .content_of(n) == prev.content_of(n) && cur.readable_of(n) == prev.readable_of(n) by {
            let i = choose|i: int| 0 <= i < prev.entries@.len() && prev.entries@[i].name@ == n;
            prev.lemma_index_unique(n, i);
            cur.lemma_index_unique(n, i);
        }
    }

    /// Reads the whole content of the resource the handle names, giving the
    /// handle up. A set `read_fault` makes every read fail; nothing but the
    /// call counter is mutated either way.
    pub fn read_to_end(&mut self, handle: ResourceHandle) -> (r: Result<String, IoErr>)
        requires
            old(self).wf(),
            old(self).contains_name(handle@),
            old(self).calls < u64::MAX,
        ensures
            final(self).entries@ == old(self).entries@,
            final(self).same_faults(*old(self)),
            final(self).calls == old(self).calls + 1,
            old(self).read_fault matches Some(c) ==> r == Result::<String, IoErr>::Err(c),
            old(self).read_fault is None ==> (r matches Ok(s) && s@ == old(self).content_of(
                handle@,
            )),
    {
        self.calls = self.calls + 1;
        match self.read_fault {
            Some(c) => Err(c),
            None => {
                match self.find_entry(&handle.name) {
                    Some(i) => {
                        proof {
                            self.lemma_index_unique(handle@, i as int);
                        }
                        Ok(self.entries[i].content.clone())
                    },
                    None => {
                        proof {
                            assert(false);
                        }
                        Err(IoErr::Other)
                    },
                }
            },
        }
    }
}

} // verus!
