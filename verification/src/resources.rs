//! The ownership table: who still owns each GPU resource, which recording
//! units still reference it, and therefore when its native object may go.

use vstd::prelude::*;

verus! {

/// Names a resource in the ownership table.
pub type ResourceId = usize;

/// Names a recording unit that can hold references to resources.
pub type HolderId = usize;

/// Why the table refused an operation.
#[derive(Clone, Copy, PartialEq, Eq, Structural, Debug)]
pub enum ResourceError {
    /// The identifier names no resource that an owner still holds.
    Stale,
    /// The identifier names no recording unit of this table.
    UnknownHolder,
}

/// The table as a mathematical value.
pub struct TableView {
    /// Per resource, the number of owning handles.
    pub owners: Seq<u64>,
    /// Per resource, whether its native object has been given up for destruction.
    pub destroyed: Seq<bool>,
    /// Per recording unit, the resources it references, in the order they were added.
    pub references: Seq<Seq<ResourceId>>,
}

impl TableView {
    /// The identifier names a resource whose native object still exists.
    pub open spec fn is_live(self, id: ResourceId) -> bool {
        id < self.owners.len() && !self.destroyed[id as int]
    }

    /// Some recording unit references the resource.
    pub open spec fn is_referenced(self, id: ResourceId) -> bool {
        exists|h: int, k: int|
            0 <= h < self.references.len() && 0 <= k < self.references[h].len()
                && #[trigger] self.references[h][k] == id
    }

    /// What always holds of a table: nothing referenced or owned is
    /// destroyed, and nothing is kept that nobody owns or references.
    pub open spec fn wf(self) -> bool {
        &&& self.owners.len() == self.destroyed.len()
        &&& forall|h: int, k: int|
            0 <= h < self.references.len() && 0 <= k < self.references[h].len() ==> self.is_live(
                #[trigger] self.references[h][k],
            )
        &&& forall|id: int|
            0 <= id < self.owners.len() && #[trigger] self.destroyed[id] ==> self.owners[id] == 0
        &&& forall|id: int|
            0 <= id < self.owners.len() && #[trigger] self.owners[id] == 0 && !self.destroyed[id]
                ==> self.is_referenced(id as usize)
    }

    /// Whether `after` is this table once `holder` has let go of all its
    /// references, and `reclaimed` the resources that went with them.
    ///
    /// Owner counts stay. A resource is destroyed afterwards exactly when it
    /// was before, or when no owner holds it and no unit references it any
    /// more. `reclaimed` lists the newly destroyed ones in ascending order.
    pub open spec fn references_released(
        self,
        holder: HolderId,
        after: TableView,
        reclaimed: Seq<ResourceId>,
    ) -> bool {
        &&& after.owners == self.owners
        &&& after.references == (if holder < self.references.len() {
            self.references.update(holder as int, Seq::empty())
        } else {
            self.references
        })
        &&& after.destroyed.len() == self.destroyed.len()
        &&& forall|id: ResourceId|
            id < self.owners.len() ==> #[trigger] after.destroyed[id as int] == (
            self.destroyed[id as int] || (self.owners[id as int] == 0 && !after.is_referenced(id)))
        &&& forall|id: ResourceId|
            reclaimed.contains(id) <==> (self.is_live(id) && !after.is_live(id))
        &&& forall|i: int, j: int| 0 <= i < j < reclaimed.len() ==> reclaimed[i] < reclaimed[j]
    }

    /// Whether an owner holds the resource.
    pub open spec fn is_owned(self, id: ResourceId) -> bool {
        self.is_live(id) && self.owners[id as int] > 0
    }

    /// Whether the native object is to be destroyed when one owner of the
    /// resource lets go: it is where that was the last owner and no
    /// recording unit references the resource.
    pub open spec fn release_destroys(self, id: ResourceId) -> bool {
        self.is_owned(id) && Self::owners_after_release(self.owners[id as int]) == 0
            && !self.is_referenced(id)
    }

    /// The table after one owner of the resource let go; a resource that no
    /// owner holds leaves the table as it is.
    pub open spec fn released(self, id: ResourceId) -> TableView {
        if self.is_owned(id) {
            TableView {
                owners: self.owners.update(
                    id as int,
                    Self::owners_after_release(self.owners[id as int]),
                ),
                destroyed: self.destroyed.update(id as int, self.release_destroys(id)),
                ..self
            }
        } else {
            self
        }
    }

    /// The table after one owner of each listed resource let go, in order.
    pub open spec fn released_all(self, ids: Seq<ResourceId>) -> TableView
        decreases ids.len(),
    {
        if ids.len() == 0 {
            self
        } else {
            self.released(ids[0]).released_all(ids.drop_first())
        }
    }

    /// The resources whose native objects are to be destroyed when one owner
    /// of each listed resource lets go, in order.
    pub open spec fn destroyed_by_release(self, ids: Seq<ResourceId>) -> Seq<ResourceId>
        decreases ids.len(),
    {
        if ids.len() == 0 {
            Seq::empty()
        } else {
            let first = if self.release_destroys(ids[0]) {
                seq![ids[0]]
            } else {
                Seq::empty()
            };
            first + self.released(ids[0]).destroyed_by_release(ids.drop_first())
        }
    }

    /// The owner count after one more owner, which stays at the maximum once there.
    pub open spec fn owners_after_retain(count: u64) -> u64 {
        if count == u64::MAX {
            count
        } else {
            (count + 1) as u64
        }
    }

    /// The owner count after one owner left; a count at the maximum never drops.
    pub open spec fn owners_after_release(count: u64) -> u64 {
        if count == u64::MAX {
            count
        } else {
            (count - 1) as u64
        }
    }
}

/// One row of the table.
#[derive(Debug)]
struct Entry {
    owners: u64,
    destroyed: bool,
}

/// Owner counts and reference sets of every GPU resource.
#[derive(Debug)]
pub struct ResourceTable {
    entries: Vec<Entry>,
    references: Vec<Vec<ResourceId>>,
}

impl View for ResourceTable {
    type V = TableView;

    closed spec fn view(&self) -> TableView {
        TableView {
            owners: Seq::new(self.entries@.len(), |i: int| self.entries@[i].owners),
            destroyed: Seq::new(self.entries@.len(), |i: int| self.entries@[i].destroyed),
            references: Seq::new(self.references@.len(), |h: int| self.references@[h]@),
        }
    }
}

impl ResourceTable {
    /// An empty table.
    pub fn new() -> (table: Self)
        ensures
            table@.wf(),
            table@ == (TableView {
                owners: Seq::empty(),
                destroyed: Seq::empty(),
                references: Seq::empty(),
            }),
    {
        let table = ResourceTable { entries: Vec::new(), references: Vec::new() };
        proof {
            assert(table@.owners =~= Seq::<u64>::empty());
            assert(table@.destroyed =~= Seq::<bool>::empty());
            assert(table@.references =~= Seq::<Seq<ResourceId>>::empty());
        }
        table
    }

    /// Registers a new resource with one owner.
    pub fn create(&mut self) -> (id: ResourceId)
        requires
            old(self)@.wf(),
        ensures
            final(self)@.wf(),
            id == old(self)@.owners.len(),
            final(self)@.owners == old(self)@.owners.push(1),
            final(self)@.destroyed == old(self)@.destroyed.push(false),
            final(self)@.references == old(self)@.references,
    {
        let id = self.entries.len();
        self.entries.push(Entry { owners: 1, destroyed: false });
        proof {
            let old_view = old(self)@;
            let new_view = self@;
            assert(new_view.references =~= old_view.references);
            assert(new_view.owners =~= old_view.owners.push(1));
            assert(new_view.destroyed =~= old_view.destroyed.push(false));
            assert forall|r: int|
                0 <= r < new_view.owners.len() && #[trigger] new_view.owners[r] == 0
                    && !new_view.destroyed[r] implies new_view.is_referenced(r as usize) by {
                assert(old_view.is_referenced(r as usize));
                let (h, k) = choose|h: int, k: int|
                    0 <= h < old_view.references.len() && 0 <= k < old_view.references[h].len()
                        && #[trigger] old_view.references[h][k] == r as usize;
                assert(new_view.references[h][k] == r as usize);
            }
        }
        id
    }

    /// Registers a new recording unit that references nothing yet.
    pub fn new_holder(&mut self) -> (holder: HolderId)
        requires
            old(self)@.wf(),
        ensures
            final(self)@.wf(),
            holder == old(self)@.references.len(),
            final(self)@.references == old(self)@.references.push(Seq::empty()),
            final(self)@.owners == old(self)@.owners,
            final(self)@.destroyed == old(self)@.destroyed,
    {
        let holder = self.references.len();
        self.references.push(Vec::new());
        proof {
            let old_view = old(self)@;
            let new_view = self@;
            assert(new_view.references =~= old_view.references.push(Seq::empty()));
            assert(new_view.owners =~= old_view.owners);
            assert(new_view.destroyed =~= old_view.destroyed);
            assert forall|r: int|
                0 <= r < new_view.owners.len() && #[trigger] new_view.owners[r] == 0
                    && !new_view.destroyed[r] implies new_view.is_referenced(r as usize) by {
                assert(old_view.is_referenced(r as usize));
                let (h, k) = choose|h: int, k: int|
                    0 <= h < old_view.references.len() && 0 <= k < old_view.references[h].len()
                        && #[trigger] old_view.references[h][k] == r as usize;
                assert(new_view.references[h][k] == r as usize);
            }
        }
        holder
    }

    /// Adds an owner to a resource that an owner still holds.
    ///
    /// Fails on an identifier that names nothing, something destroyed, or
    /// something no owner holds any more; the table is then unchanged.
    pub fn retain(&mut self, id: ResourceId) -> (outcome: Result<(), ResourceError>)
        requires
            old(self)@.wf(),
        ensures
            final(self)@.wf(),
            final(self)@.destroyed == old(self)@.destroyed,
            final(self)@.references == old(self)@.references,
            outcome is Ok <==> old(self)@.is_live(id) && old(self)@.owners[id as int] > 0,
            outcome is Err ==> outcome == Err::<(), ResourceError>(ResourceError::Stale)
                && final(self)@ == old(self)@,
            outcome is Ok ==> final(self)@.owners == old(self)@.owners.update(
                id as int,
                TableView::owners_after_retain(old(self)@.owners[id as int]),
            ),
    {
        if id >= self.entries.len() || self.entries[id].destroyed || self.entries[id].owners == 0 {
            return Err(ResourceError::Stale);
        }
        let count = self.entries[id].owners;
        let next = if count == u64::MAX {
            count
        } else {
            count + 1
        };
        self.entries.set(id, Entry { owners: next, destroyed: false });
        proof {
            let old_view = old(self)@;
            let new_view = self@;
            assert(new_view.destroyed =~= old_view.destroyed);
            assert(new_view.references =~= old_view.references);
            assert(new_view.owners =~= old_view.owners.update(id as int, next));
            assert forall|r: int|
                0 <= r < new_view.owners.len() && #[trigger] new_view.owners[r] == 0
                    && !new_view.destroyed[r] implies new_view.is_referenced(r as usize) by {
                assert(old_view.owners[r] == 0);
                assert(old_view.is_referenced(r as usize));
            }
        }
        Ok(())
    }

    /// Takes one owner away from a resource.
    ///
    /// Fails as `retain` does. On success the answer says whether the native
    /// object is to be destroyed now: that is so when the last owner left and
    /// no recording unit references the resource. A resource that is still
    /// referenced is kept until its last reference is released.
    pub fn release(&mut self, id: ResourceId) -> (outcome: Result<bool, ResourceError>)
        requires
            old(self)@.wf(),
        ensures
            final(self)@.wf(),
            final(self)@.references == old(self)@.references,
            outcome is Ok <==> old(self)@.is_live(id) && old(self)@.owners[id as int] > 0,
            outcome is Err ==> outcome == Err::<bool, ResourceError>(ResourceError::Stale)
                && final(self)@ == old(self)@,
            outcome matches Ok(destroy_now) ==> {
                let left = TableView::owners_after_release(old(self)@.owners[id as int]);
                &&& destroy_now == (left == 0 && !old(self)@.is_referenced(id))
                &&& final(self)@.owners == old(self)@.owners.update(id as int, left)
                &&& final(self)@.destroyed == old(self)@.destroyed.update(id as int, destroy_now)
            },
            final(self)@ == old(self)@.released(id),
            outcome is Ok ==> outcome->Ok_0 == old(self)@.release_destroys(id),
    {
        if id >= self.entries.len() || self.entries[id].destroyed || self.entries[id].owners == 0 {
            return Err(ResourceError::Stale);
        }
        let count = self.entries[id].owners;
        let left = if count == u64::MAX {
            count
        } else {
            count - 1
        };
        let destroy_now = left == 0 && !self.is_referenced(id);
        self.entries.set(id, Entry { owners: left, destroyed: destroy_now });
        proof {
            let old_view = old(self)@;
            let new_view = self@;
            assert(new_view.references =~= old_view.references);
            assert(new_view.owners =~= old_view.owners.update(id as int, left));
            assert(new_view.destroyed =~= old_view.destroyed.update(id as int, destroy_now));
            assert forall|h: int, k: int|
                0 <= h < new_view.references.len() && 0 <= k < new_view.references[h].len()
                    implies new_view.is_live(#[trigger] new_view.references[h][k]) by {
                assert(old_view.is_live(old_view.references[h][k]));
            }
            assert forall|r: int|
                0 <= r < new_view.owners.len() && #[trigger] new_view.owners[r] == 0
                    && !new_view.destroyed[r] implies new_view.is_referenced(r as usize) by {
                if r != id {
                    assert(old_view.owners[r] == 0);
                }
                assert(old_view.is_referenced(r as usize));
            }
        }
        Ok(destroy_now)
    }

    /// Takes one owner away from each listed resource, in order; a resource
    /// that no owner holds is passed over. The answer lists the resources
    /// whose native objects are to be destroyed now, in the order in which
    /// their last owner let go.
    pub fn release_all(&mut self, ids: &Vec<ResourceId>) -> (reclaimed: Vec<ResourceId>)
        requires
            old(self)@.wf(),
        ensures
            final(self)@.wf(),
            final(self)@.references == old(self)@.references,
            final(self)@ == old(self)@.released_all(ids@),
            reclaimed@ == old(self)@.destroyed_by_release(ids@),
    {
        let mut reclaimed: Vec<ResourceId> = Vec::new();
        let mut i: usize = 0;
        proof {
            assert(ids@.skip(0) =~= ids@);
            assert(reclaimed@ + self@.destroyed_by_release(ids@) =~= self@.destroyed_by_release(ids@));
        }
        while i < ids.len()
            invariant
                i <= ids@.len(),
                self@.wf(),
                self@.references == old(self)@.references,
                self@.released_all(ids@.skip(i as int)) == old(self)@.released_all(ids@),
                reclaimed@ + self@.destroyed_by_release(ids@.skip(i as int)) == old(
                    self,
                )@.destroyed_by_release(ids@),
            decreases ids@.len() - i,
        {
            let ghost before = self@;
            let ghost ahead = ids@.skip(i as int);
            let ghost listed = reclaimed@;
            proof {
                assert(ahead[0] == ids@[i as int]);
                assert(ahead.drop_first() =~= ids@.skip(i + 1));
            }
            match self.release(ids[i]) {
                Ok(destroy_now) => {
                    if destroy_now {
                        reclaimed.push(ids[i]);
                    }
                },
                Err(_) => {},
            }
            proof {
                let first = if before.release_destroys(ids@[i as int]) {
                    seq![ids@[i as int]]
                } else {
                    Seq::<ResourceId>::empty()
                };
                assert(reclaimed@ =~= listed + first);
                assert(listed + (first + self@.destroyed_by_release(ids@.skip(i + 1))) =~= reclaimed@
                    + self@.destroyed_by_release(ids@.skip(i + 1)));
            }
            i += 1;
        }
        proof {
            assert(reclaimed@ + Seq::<ResourceId>::empty() =~= reclaimed@);
        }
        reclaimed
    }

    /// Records that a recording unit references a resource, which keeps the
    /// resource's native object alive until the unit's references are released.
    ///
    /// Fails on an unknown unit, and on a resource whose native object is
    /// gone or was never registered; the table is then unchanged.
    pub fn add_reference(&mut self, holder: HolderId, id: ResourceId) -> (outcome: Result<
        (),
        ResourceError,
    >)
        requires
            old(self)@.wf(),
        ensures
            final(self)@.wf(),
            final(self)@.owners == old(self)@.owners,
            final(self)@.destroyed == old(self)@.destroyed,
            outcome == (if holder >= old(self)@.references.len() {
                Err::<(), ResourceError>(ResourceError::UnknownHolder)
            } else if !old(self)@.is_live(id) {
                Err::<(), ResourceError>(ResourceError::Stale)
            } else {
                Ok::<(), ResourceError>(())
            }),
            outcome is Err ==> final(self)@ == old(self)@,
            outcome is Ok ==> final(self)@.references == old(self)@.references.update(
                holder as int,
                old(self)@.references[holder as int].push(id),
            ),
    {
        if holder >= self.references.len() {
            return Err(ResourceError::UnknownHolder);
        }
        if id >= self.entries.len() || self.entries[id].destroyed {
            return Err(ResourceError::Stale);
        }
        let mut row = self.references[holder].clone();
        row.push(id);
        self.references.set(holder, row);
        proof {
            let old_view = old(self)@;
            let new_view = self@;
            assert(new_view.owners =~= old_view.owners);
            assert(new_view.destroyed =~= old_view.destroyed);
            assert(new_view.references =~= old_view.references.update(
                holder as int,
                old_view.references[holder as int].push(id),
            ));
            assert forall|h: int, k: int|
                0 <= h < new_view.references.len() && 0 <= k < new_view.references[h].len()
                    implies new_view.is_live(#[trigger] new_view.references[h][k]) by {
                if h == holder && k == old_view.references[h].len() {
                } else {
                    assert(old_view.is_live(old_view.references[h][k]));
                }
            }
            assert forall|r: int|
                0 <= r < new_view.owners.len() && #[trigger] new_view.owners[r] == 0
                    && !new_view.destroyed[r] implies new_view.is_referenced(r as usize) by {
                assert(old_view.is_referenced(r as usize));
                let (h, k) = choose|h: int, k: int|
                    0 <= h < old_view.references.len() && 0 <= k < old_view.references[h].len()
                        && #[trigger] old_view.references[h][k] == r as usize;
                assert(new_view.references[h][k] == r as usize);
            }
        }
        Ok(())
    }

    /// Releases every reference a recording unit holds.
    ///
    /// Each resource that no owner holds and that no unit references any
    /// more is marked destroyed; the answer lists exactly those, in
    /// ascending order, for their native objects to be destroyed now.
    pub fn release_references(&mut self, holder: HolderId) -> (reclaimed: Vec<ResourceId>)
        requires
            old(self)@.wf(),
        ensures
            final(self)@.wf(),
            old(self)@.references_released(holder, final(self)@, reclaimed@),
    {
        let mut reclaimed: Vec<ResourceId> = Vec::new();
        if holder >= self.references.len() {
            proof {
                assert forall|id: ResourceId| id < old(self)@.owners.len() implies #[trigger] self@.destroyed[id as int]
                    == (old(self)@.destroyed[id as int] || (old(self)@.owners[id as int] == 0
                    && !self@.is_referenced(id))) by {}
            }
            return reclaimed;
        }
        self.references.set(holder, Vec::new());
        let ghost cleared = self@;
        proof {
            let old_view = old(self)@;
            assert(cleared.owners =~= old_view.owners);
            assert(cleared.destroyed =~= old_view.destroyed);
            assert(cleared.references =~= old_view.references.update(holder as int, Seq::empty()));
        }
        let mut id: usize = 0;
        while id < self.entries.len()
            invariant
                old(self)@.wf(),
                holder < old(self)@.references.len(),
                id <= self.entries.len(),
                self@.owners == old(self)@.owners,
                self@.references == old(self)@.references.update(holder as int, Seq::empty()),
                self@.destroyed.len() == old(self)@.destroyed.len(),
                forall|r: int|
                    0 <= r < id ==> #[trigger] self@.destroyed[r] == (old(self)@.destroyed[r] || (old(
                        self,
                    )@.owners[r] == 0 && !self@.is_referenced(r as usize))),
                forall|r: int|
                    id <= r < self.entries.len() ==> #[trigger] self@.destroyed[r] == old(
                        self,
                    )@.destroyed[r],
                forall|r: ResourceId|
                    reclaimed@.contains(r) <==> (r < id && old(self)@.is_live(r) && !self@.is_live(
                        r,
                    )),
                forall|i: int, j: int|
                    0 <= i < j < reclaimed@.len() ==> reclaimed@[i] < reclaimed@[j],
            decreases self.entries.len() - id,
        {
            let ghost before = self@;
            let ghost listed = reclaimed@;
            if self.entries[id].owners == 0 && !self.entries[id].destroyed && !self.is_referenced(
                id,
            ) {
                self.entries.set(id, Entry { owners: 0, destroyed: true });
                reclaimed.push(id);
                proof {
                    assert(self@.owners =~= before.owners);
                    assert(self@.references =~= before.references);
                    assert(self@.destroyed =~= before.destroyed.update(id as int, true));
                    assert(!before.destroyed[id as int]);
                    assert(old(self)@.destroyed[id as int] == before.destroyed[id as int]);
                    assert(old(self)@.is_live(id));
                    assert(!self@.is_live(id));
                    assert(reclaimed@ == listed.push(id));
                    assert forall|r: ResourceId|
                        reclaimed@.contains(r) <==> (r < id + 1 && old(self)@.is_live(r)
                            && !self@.is_live(r)) by {
                        if r != id {
                            assert(self@.is_live(r) == before.is_live(r));
                        }
                        if reclaimed@.contains(r) {
                            let i = choose|i: int| 0 <= i < reclaimed@.len() && reclaimed@[i] == r;
                            if i < listed.len() {
                                assert(listed[i] == r);
                                assert(listed.contains(r));
                            } else {
                                assert(r == id);
                            }
                        }
                        if r < id + 1 && old(self)@.is_live(r) && !self@.is_live(r) {
                            if r == id {
                                assert(reclaimed@[listed.len() as int] == r);
                            } else {
                                assert(listed.contains(r));
                                let i = choose|i: int| 0 <= i < listed.len() && listed[i] == r;
                                assert(reclaimed@[i] == r);
                            }
                        }
                    }
                    assert forall|i: int, j: int|
                        0 <= i < j < reclaimed@.len() implies reclaimed@[i] < reclaimed@[j] by {
                        if j == listed.len() {
                            assert(listed[i] == reclaimed@[i]);
                            assert(listed.contains(reclaimed@[i]));
                        } else {
                            assert(listed[i] == reclaimed@[i]);
                            assert(listed[j] == reclaimed@[j]);
                        }
                    }
                }
            } else {
                proof {
                    assert forall|r: ResourceId|
                        reclaimed@.contains(r) <==> (r < id + 1 && old(self)@.is_live(r)
                            && !self@.is_live(r)) by {}
                }
            }
            id += 1;
        }
        proof {
            let old_view = old(self)@;
            let new_view = self@;
            assert forall|h: int, k: int|
                0 <= h < new_view.references.len() && 0 <= k < new_view.references[h].len()
                    implies new_view.is_live(#[trigger] new_view.references[h][k]) by {
                let r = new_view.references[h][k];
                assert(old_view.references[h][k] == r);
                assert(old_view.is_live(r));
                assert(new_view.is_referenced(r));
                assert(new_view.destroyed[r as int] == (old_view.destroyed[r as int] || (
                old_view.owners[r as int] == 0 && !new_view.is_referenced(r))));
            }
            assert forall|r: int|
                0 <= r < new_view.owners.len() && #[trigger] new_view.destroyed[r]
                    implies new_view.owners[r] == 0 by {
                assert(new_view.destroyed[r] == (old_view.destroyed[r] || (old_view.owners[r] == 0
                    && !new_view.is_referenced(r as usize))));
            }
            assert forall|r: int|
                0 <= r < new_view.owners.len() && #[trigger] new_view.owners[r] == 0
                    && !new_view.destroyed[r] implies new_view.is_referenced(r as usize) by {
                assert(new_view.destroyed[r] == (old_view.destroyed[r] || (old_view.owners[r] == 0
                    && !new_view.is_referenced(r as usize))));
            }
        }
        reclaimed
    }

    /// The number of recording units registered so far.
    pub fn holder_count(&self) -> (count: usize)
        ensures
            count == self@.references.len(),
    {
        self.references.len()
    }

    /// The number of resources registered so far.
    pub fn resource_count(&self) -> (count: usize)
        ensures
            count == self@.owners.len(),
    {
        self.entries.len()
    }

    /// Tells whether the resource's native object still exists.
    pub fn is_live(&self, id: ResourceId) -> (live: bool)
        ensures
            live == self@.is_live(id),
    {
        id < self.entries.len() && !self.entries[id].destroyed
    }

    /// The number of owning handles of a resource; zero for an unknown one.
    pub fn owner_count(&self, id: ResourceId) -> (count: u64)
        ensures
            count == (if id < self@.owners.len() {
                self@.owners[id as int]
            } else {
                0
            }),
    {
        if id < self.entries.len() {
            self.entries[id].owners
        } else {
            0
        }
    }

    /// Tells whether any recording unit references the resource.
    pub fn is_referenced(&self, id: ResourceId) -> (found: bool)
        ensures
            found == self@.is_referenced(id),
    {
        let mut h: usize = 0;
        while h < self.references.len()
            invariant
                h <= self.references.len(),
                forall|a: int, k: int|
                    0 <= a < h && 0 <= k < self@.references[a].len()
                        ==> #[trigger] self@.references[a][k] != id,
            decreases self.references.len() - h,
        {
            let mut k: usize = 0;
            while k < self.references[h].len()
                invariant
                    h < self.references.len(),
                    k <= self.references[h as int].len(),
                    forall|b: int| 0 <= b < k ==> #[trigger] self@.references[h as int][b] != id,
                decreases self.references[h as int].len() - k,
            {
                if self.references[h][k] == id {
                    assert(self@.references[h as int][k as int] == id);
                    return true;
                }
                k += 1;
            }
            h += 1;
        }
        false
    }

    /// The resources a recording unit references, in the order they were added.
    pub fn references_of(&self, holder: HolderId) -> (ids: Vec<ResourceId>)
        ensures
            ids@ == (if holder < self@.references.len() {
                self@.references[holder as int]
            } else {
                Seq::empty()
            }),
    {
        if holder < self.references.len() {
            self.references[holder].clone()
        } else {
            Vec::new()
        }
    }
}

/// What a recording references outlives every owner: however many owners
/// let go of whatever resources, a referenced resource keeps its native
/// object.
pub proof fn lemma_referenced_resource_survives_releases(
    table: TableView,
    ids: Seq<ResourceId>,
    id: ResourceId,
)
    requires
        table.owners.len() == table.destroyed.len(),
        table.is_live(id),
        table.is_referenced(id),
    ensures
        table.released_all(ids).is_live(id),
        table.released_all(ids).is_referenced(id),
        table.released_all(ids).references == table.references,
        !table.destroyed_by_release(ids).contains(id),
    decreases ids.len(),
{
    if ids.len() > 0 {
        let next = table.released(ids[0]);
        assert(next.references == table.references);
        assert(next.is_referenced(id)) by {
            let (h, k) = choose|h: int, k: int|
                0 <= h < table.references.len() && 0 <= k < table.references[h].len()
                    && #[trigger] table.references[h][k] == id;
            assert(next.references[h][k] == id);
        }
        lemma_referenced_resource_survives_releases(next, ids.drop_first(), id);
        let rest = next.destroyed_by_release(ids.drop_first());
        let all = table.destroyed_by_release(ids);
        if all.contains(id) {
            let i = choose|i: int| 0 <= i < all.len() && all[i] == id;
            if table.release_destroys(ids[0]) {
                if i > 0 {
                    assert(rest[i - 1] == id);
                }
            } else {
                assert(all =~= rest);
                assert(rest[i] == id);
            }
        }
    }
}

/// An owner's hold is good until the owner lets go: a resource that has
/// more owners than are about to let go of it keeps its native object.
pub proof fn lemma_release_of_others_keeps_owned(table: TableView, id: ResourceId, other: ResourceId)
    requires
        table.owners.len() == table.destroyed.len(),
        table.is_owned(id),
        other != id,
    ensures
        table.released(other).is_owned(id),
        table.released(other).owners[id as int] == table.owners[id as int],
{
}

} // verus!
