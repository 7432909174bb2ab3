//! Attachments of a program, and the table in which a program tracks them.

use vstd::prelude::*;
use crate::sys::SyscallError;

verus! {

/// Identifies an attachment among those of one program. Ids are handed out
/// in sequence and never again.
#[derive(Clone, Copy, Debug, PartialEq, Eq, Structural)]
pub struct LinkId(pub u64);

/// An attachment that is held by a descriptor: closing it detaches.
#[derive(Clone, Copy, Debug, PartialEq, Eq, Structural)]
pub struct FdLink {
    pub fd: i32,
}

/// An attachment in the older style, held by the descriptor of an event.
#[derive(Clone, Copy, Debug, PartialEq, Eq, Structural)]
pub struct PerfLink {
    pub perf_fd: i32,
}

/// An attachment that occupies a slot of a target, and is undone by naming
/// the program and the target again.
#[derive(Clone, Copy, Debug, PartialEq, Eq, Structural)]
pub struct ProgAttachLink {
    pub prog_fd: i32,
    pub target_fd: i32,
}

/// One live attachment, tagged by its kind.
#[derive(Clone, Copy, Debug, PartialEq, Eq, Structural)]
pub enum Link {
    Fd(FdLink),
    Perf(PerfLink),
    ProgAttach(ProgAttachLink),
}

/// Why an operation on an attachment failed.
#[derive(Clone, Copy, Debug, PartialEq, Eq, Structural)]
pub enum LinkError {
    /// The attachment is not of the kind asked for.
    InvalidLink,
    /// The kernel refused a call.
    SyscallError(SyscallError),
}

/// An attachment together with its id.
#[derive(Clone, Copy, Debug, PartialEq, Eq, Structural)]
pub struct LinkEntry {
    pub id: LinkId,
    pub link: Link,
}

/// The attachments that a program tracks, in the order in which they were
/// made.
#[derive(Debug)]
pub struct Links {
    entries: Vec<LinkEntry>,
    next_id: u64,
}

/// Whether `entries` holds an attachment with the id `id`.
pub open spec fn tracks(entries: Seq<LinkEntry>, id: LinkId) -> bool {
    exists|i: int| 0 <= i < entries.len() && (#[trigger] entries[i]).id == id
}

/// The position of the attachment with the id `id`.
pub open spec fn position_of(entries: Seq<LinkEntry>, id: LinkId) -> int {
    choose|i: int| 0 <= i < entries.len() && (#[trigger] entries[i]).id == id
}

impl Links {
    /// The tracked attachments, oldest first.
    pub closed spec fn entries(&self) -> Seq<LinkEntry> {
        self.entries@
    }

    /// The id that the next attachment gets.
    pub closed spec fn next_id(&self) -> u64 {
        self.next_id
    }

    /// Ids rise along the table and lie below the next id, so that no two
    /// attachments share one.
    pub open spec fn wf(&self) -> bool {
        &&& forall|i: int|
            0 <= i < self.entries().len() ==> (#[trigger] self.entries()[i]).id.0 < self.next_id()
        &&& ids_rise(self.entries())
    }

    /// Whether no attachment is tracked.
    pub open spec fn spec_is_empty(&self) -> bool {
        self.entries().len() == 0
    }

    /// A table without attachments, whose first id is zero.
    pub fn new() -> (r: Links)
        ensures
            r.entries() == Seq::<LinkEntry>::empty(),
            r.next_id() == 0,
            r.wf(),
    {
        Links { entries: Vec::new(), next_id: 0 }
    }

    /// Whether the table is well formed. It always is: the table is
    /// changed by its own operations only.
    pub fn check(&self) -> (r: bool)
        ensures
            r == self.wf(),
    {
        let mut i: usize = 0;
        while i < self.entries.len()
            invariant
                i <= self.entries@.len(),
                forall|k: int|
                    0 <= k < i ==> (#[trigger] self.entries@[k]).id.0 < self.next_id && (k > 0
                        ==> self.entries@[k - 1].id.0 < self.entries@[k].id.0),
            decreases self.entries@.len() - i,
        {
            if self.entries[i].id.0 >= self.next_id {
                return false;
            }
            if i > 0 && self.entries[i - 1].id.0 >= self.entries[i].id.0 {
                assert(!(self.entries@[i - 1].id.0 < self.entries@[i as int].id.0));
                return false;
            }
            i = i + 1;
        }
        proof {
            lemma_neighbours_rise(self.entries@);
        }
        true
    }

    /// Whether no attachment is tracked.
    #[verifier::when_used_as_spec(spec_is_empty)]
    pub fn is_empty(&self) -> (r: bool)
        ensures
            r == self.spec_is_empty(),
    {
        self.entries.len() == 0
    }

    /// The number of tracked attachments.
    pub fn len(&self) -> (r: usize)
        ensures
            r == self.entries().len(),
    {
        self.entries.len()
    }

    /// The attachment at position `i`.
    pub fn get(&self, i: usize) -> (r: LinkEntry)
        requires
            i < self.entries().len(),
        ensures
            r == self.entries()[i as int],
    {
        self.entries[i]
    }

    /// Tracks `link` under the next id; `None` where the ids are used up.
    pub fn insert(&mut self, link: Link) -> (r: Option<LinkId>)
        requires
            old(self).wf(),
        ensures
            final(self).wf(),
            old(self).next_id() == u64::MAX ==> r is None && *final(self) == *old(self),
            old(self).next_id() < u64::MAX ==> {
                &&& r == Some(LinkId(old(self).next_id()))
                &&& final(self).next_id() == old(self).next_id() + 1
                &&& final(self).entries() == old(self).entries().push(
                    LinkEntry { id: LinkId(old(self).next_id()), link },
                )
            },
    {
        if self.next_id == u64::MAX {
            return None;
        }
        let id: LinkId = LinkId(self.next_id);
        self.entries.push(LinkEntry { id, link });
        self.next_id = self.next_id + 1;
        Some(id)
    }

    /// Stops tracking every attachment and hands them out, oldest first.
    /// The next id stays as it is.
    pub fn take_all(&mut self) -> (r: Vec<LinkEntry>)
        requires
            old(self).wf(),
        ensures
            final(self).wf(),
            final(self).entries() == Seq::<LinkEntry>::empty(),
            final(self).next_id() == old(self).next_id(),
            r@ == old(self).entries(),
    {
        let mut out: Vec<LinkEntry> = Vec::new();
        core::mem::swap(&mut out, &mut self.entries);
        out
    }

    /// Finds the position of the attachment with the id `id`.
    pub fn find(&self, id: LinkId) -> (r: Option<usize>)
        ensures
            r is Some <==> tracks(self.entries(), id),
            r is Some ==> r->Some_0 < self.entries().len() && self.entries()[r->Some_0 as int].id
                == id,
    {
        let mut i: usize = 0;
        while i < self.entries.len()
            invariant
                i <= self.entries@.len(),
                forall|j: int| 0 <= j < i ==> (#[trigger] self.entries@[j]).id != id,
            decreases self.entries@.len() - i,
        {
            if self.entries[i].id.0 == id.0 {
                return Some(i);
            }
            i = i + 1;
        }
        None
    }

    /// Stops tracking the attachment with the id `id` and hands it out;
    /// `None`, and no change, where no such attachment is tracked.
    pub fn remove(&mut self, id: LinkId) -> (r: Option<Link>)
        requires
            old(self).wf(),
        ensures
            final(self).wf(),
            final(self).next_id() == old(self).next_id(),
            r is Some <==> tracks(old(self).entries(), id),
            r is None ==> final(self).entries() == old(self).entries(),
            r is Some ==> {
                let at = position_of(old(self).entries(), id);
                &&& r->Some_0 == old(self).entries()[at].link
                &&& final(self).entries() == old(self).entries().remove(at)
                &&& !tracks(final(self).entries(), id)
            },
    {
        match self.find(id) {
            None => None,
            Some(at) => {
                let gone: LinkEntry = self.entries.remove(at);
                Some(gone.link)
            },
        }
    }
}

/// Whether the ids rise along `entries`.
pub open spec fn ids_rise(entries: Seq<LinkEntry>) -> bool {
    forall|i: int, j: int|
        0 <= i < j < entries.len() ==> (#[trigger] entries[i]).id.0 < (#[trigger] entries[j]).id.0
}

/// An attachment that was taken out of the table is no longer tracked, so
/// that detaching it afterwards finds no link. The attachments that stay
/// are those that were tracked before, in their order.
pub proof fn law_taken_link_is_not_tracked(entries: Seq<LinkEntry>, id: LinkId)
    requires
        ids_rise(entries),
        tracks(entries, id),
    ensures
        !tracks(entries.remove(position_of(entries, id)), id),
        ids_rise(entries.remove(position_of(entries, id))),
        forall|other: LinkId|
            other != id ==> tracks(entries.remove(position_of(entries, id)), other) == tracks(
                entries,
                other,
            ),
{
    let at = position_of(entries, id);
    let after = entries.remove(at);
    assert forall|other: LinkId| other != id implies tracks(after, other) == tracks(
        entries,
        other,
    ) by {
        if tracks(entries, other) {
            let i = position_of(entries, other);
            let ai = if i < at {
                i
            } else {
                i - 1
            };
            assert(after[ai] == entries[i]);
        }
    }
}

/// Ids that rise from each entry to the next rise along the whole table.
pub proof fn lemma_neighbours_rise(entries: Seq<LinkEntry>)
    requires
        forall|k: int| 0 < k < entries.len() ==> entries[k - 1].id.0 < (#[trigger] entries[k]).id.0,
    ensures
        ids_rise(entries),
{
    assert forall|i: int, j: int| 0 <= i < j < entries.len() implies (#[trigger] entries[i]).id.0
        < (#[trigger] entries[j]).id.0 by {
        lemma_rise_between(entries, i, j);
    }
}

/// Ids that rise from each entry to the next rise from `i` to `j`.
proof fn lemma_rise_between(entries: Seq<LinkEntry>, i: int, j: int)
    requires
        0 <= i < j < entries.len(),
        forall|k: int| 0 < k < entries.len() ==> entries[k - 1].id.0 < (#[trigger] entries[k]).id.0,
    ensures
        entries[i].id.0 < entries[j].id.0,
    decreases j - i,
{
    if i + 1 < j {
        lemma_rise_between(entries, i, j - 1);
    }
}

} // verus!
