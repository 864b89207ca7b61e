//! The daemon's mount table: which mounts are its own to undo.
//!
//! The adapter records a volume id here exactly when the daemon itself
//! mounted that volume.  A volume found already mounted is reused but never
//! recorded, and cleanup unmounts a mount point if and only if its volume id
//! is in this table — the daemon unmounts only what it mounted.

use vstd::prelude::*;

verus! {

/// Mapping volume id → mount point, for daemon-made mounts only.
pub struct MountTable {
    uuids: Vec<String>,
    mount_points: Vec<String>,
}

impl MountTable {
    /// The recorded volume ids.
    pub closed spec fn keys(self) -> Seq<Seq<char>> {
        self.uuids@.map_values(|s: String| s@)
    }

    /// The recorded mount points, aligned with `keys`.
    pub closed spec fn points(self) -> Seq<Seq<char>> {
        self.mount_points@.map_values(|s: String| s@)
    }

    /// One mount point per volume, and no volume recorded twice.
    pub open spec fn wf(self) -> bool {
        &&& self.keys().len() == self.points().len()
        &&& forall|i: int, j: int|
            0 <= i < j < self.keys().len() ==> self.keys()[i] != self.keys()[j]
    }

    /// Whether the daemon mounted this volume.
    pub open spec fn owns(self, uuid: Seq<char>) -> bool {
        exists|i: int| 0 <= i < self.keys().len() && self.keys()[i] == uuid
    }

    /// The mount point recorded for a volume (meaningful only when
    /// `owns(uuid)`).
    pub open spec fn point_of(self, uuid: Seq<char>) -> Seq<char> {
        let i = choose|i: int| 0 <= i < self.keys().len() && self.keys()[i] == uuid;
        self.points()[i]
    }

    /// An empty table.
    pub fn new() -> (r: MountTable)
        ensures
            r.wf(),
            forall|u: Seq<char>| !r.owns(u),
    {
        MountTable { uuids: Vec::new(), mount_points: Vec::new() }
    }

    fn find(&self, uuid: &str) -> (r: Option<usize>)
        requires
            self.wf(),
        ensures
            r matches Some(i) ==> i < self.keys().len() && self.keys()[i as int] == uuid@,
            r is None ==> !self.owns(uuid@),
    {
        let mut i: usize = 0;
        while i < self.uuids.len()
            invariant
                self.wf(),
                i <= self.keys().len(),
                forall|j: int| 0 <= j < i ==> self.keys()[j] != uuid@,
            decreases self.keys().len() - i,
        {
            if crate::text::str_eq(self.uuids[i].as_str(), uuid) {
                return Some(i);
            }
            i += 1;
        }
        None
    }

    /// Whether the daemon mounted this volume.
    pub fn contains(&self, uuid: &str) -> (r: bool)
        requires
            self.wf(),
        ensures
            r == self.owns(uuid@),
    {
        match self.find(uuid) {
            Some(_) => true,
            None => false,
        }
    }

    /// Records a mount the daemon just performed: the volume now maps to
    /// exactly this mount point, and every other recorded mount is left as
    /// it was.
    pub fn record_mount(&mut self, uuid: &str, mount_point: &str)
        requires
            old(self).wf(),
            !old(self).owns(uuid@),
        ensures
            final(self).wf(),
            final(self).owns(uuid@),
            final(self).point_of(uuid@) == mount_point@,
            forall|u: Seq<char>|
                u != uuid@ ==> #[trigger] final(self).owns(u) == old(self).owns(u),
            forall|u: Seq<char>|
                u != uuid@ && old(self).owns(u) ==> #[trigger] final(self).point_of(u) == old(self).point_of(u),
    {
        self.uuids.push(uuid.to_owned());
        self.mount_points.push(mount_point.to_owned());
        proof {
            assert(final(self).keys() =~= old(self).keys().push(uuid@));
            assert(final(self).points() =~= old(self).points().push(mount_point@));
            let n = old(self).keys().len() as int;
            assert(final(self).keys()[n] == uuid@);
            lemma_mount_index_unique(final(self).keys(), n, uuid@);
            assert forall|u: Seq<char>|
                u != uuid@ implies #[trigger] final(self).owns(u) == old(self).owns(u) by {
                if final(self).owns(u) {
                    let j = choose|j: int|
                        0 <= j < final(self).keys().len() && final(self).keys()[j] == u;
                    assert(j < n);
                    assert(old(self).keys()[j] == u);
                }
                if old(self).owns(u) {
                    let j = choose|j: int|
                        0 <= j < old(self).keys().len() && old(self).keys()[j] == u;
                    assert(final(self).keys()[j] == u);
                }
            }
            assert forall|u: Seq<char>|
                u != uuid@ && old(self).owns(u) implies #[trigger] final(self).point_of(u)
                == old(self).point_of(u) by {
                let jo = choose|jo: int|
                    0 <= jo < old(self).keys().len() && old(self).keys()[jo] == u;
                assert(final(self).keys()[jo] == u);
                let j = choose|j: int|
                    0 <= j < final(self).keys().len() && final(self).keys()[j] == u;
                assert(j < n);
            }
        }
    }

    /// Decides and records cleanup for one device: the volume is to be
    /// unmounted if and only if the daemon mounted it, and afterwards the
    /// table no longer holds it.  What comes back is exactly the mount point
    /// recorded for that volume — the path to detach and remove; every other
    /// recorded mount is left as it was.
    pub fn cleanup(&mut self, uuid: &str) -> (unmount: Option<String>)
        requires
            old(self).wf(),
        ensures
            final(self).wf(),
            unmount is Some <==> old(self).owns(uuid@),
            unmount matches Some(mp) ==> mp@ == old(self).point_of(uuid@),
            !final(self).owns(uuid@),
            forall|u: Seq<char>|
                u != uuid@ ==> #[trigger] final(self).owns(u) == old(self).owns(u),
            forall|u: Seq<char>|
                u != uuid@ && old(self).owns(u) ==> #[trigger] final(self).point_of(u) == old(self).point_of(u),
    {
        let found = self.find(uuid);
        match found {
            Some(i) => {
                proof {
                    lemma_mount_index_unique(old(self).keys(), i as int, uuid@);
                }
                self.uuids.remove(i);
                let mp = self.mount_points.remove(i);
                proof {
                    let k = i as int;
                    let n = old(self).keys().len() as int;
                    let ok = old(self).keys();
                    assert(final(self).keys() =~= ok.remove(k));
                    assert(final(self).points() =~= old(self).points().remove(k));
                    ok.remove_ensures(k);
                    old(self).points().remove_ensures(k);
                    assert(forall|idx: int|
                        0 <= idx < k ==> final(self).keys()[idx] == ok[idx] && final(self).points()[idx] == old(self).points()[idx]);
                    assert(forall|idx: int|
                        k <= idx < n - 1 ==> final(self).keys()[idx] == ok[idx + 1] && final(self).points()[idx] == old(self).points()[idx + 1]);
                    assert(mp@ == old(self).point_of(uuid@));
                    assert(final(self).wf()) by {
                        assert forall|a: int, b: int|
                            0 <= a < b < final(self).keys().len() implies final(self).keys()[a]
                            != final(self).keys()[b] by {
                            let ao = if a < k { a } else { a + 1 };
                            let bo = if b < k { b } else { b + 1 };
                            assert(final(self).keys()[a] == ok[ao]);
                            assert(final(self).keys()[b] == ok[bo]);
                        }
                    }
                    assert(!final(self).owns(uuid@)) by {
                        if final(self).owns(uuid@) {
                            let j = choose|j: int|
                                0 <= j < final(self).keys().len() && final(self).keys()[j]
                                    == uuid@;
                            if j < k {
                                assert(ok[j] == uuid@);
                            } else {
                                assert(ok[j + 1] == uuid@);
                            }
                        }
                    }
                    assert forall|u: Seq<char>|
                        u != uuid@ implies #[trigger] final(self).owns(u) == old(self).owns(
                        u,
                    ) by {
                        if final(self).owns(u) {
                            let j = choose|j: int|
                                0 <= j < final(self).keys().len() && final(self).keys()[j] == u;
                            if j < k {
                                assert(ok[j] == u);
                            } else {
                                assert(ok[j + 1] == u);
                            }
                        }
                        if old(self).owns(u) {
                            let j = choose|j: int| 0 <= j < ok.len() && ok[j] == u;
                            assert(j != k);
                            if j < k {
                                assert(final(self).keys()[j] == u);
                            } else {
                                assert(final(self).keys()[j - 1] == u);
                            }
                        }
                    }
                    assert forall|u: Seq<char>|
                        u != uuid@ && old(self).owns(u) implies #[trigger] final(self).point_of(u) == old(self).point_of(u) by {
                        let j = choose|j: int| 0 <= j < ok.len() && ok[j] == u;
                        assert(j != k);
                        if j < k {
                            assert(final(self).keys()[j] == u);
                        } else {
                            assert(final(self).keys()[j - 1] == u);
                        }
                        let j2 = choose|j2: int|
                            0 <= j2 < final(self).keys().len() && final(self).keys()[j2] == u;
                        let j2o = if j2 < k {
                            j2
                        } else {
                            j2 + 1
                        };
                        assert(ok[j2o] == u);
                        assert(final(self).points()[j2] == old(self).points()[j2o]);
                        lemma_mount_index_unique(ok, j2o, u);
                        assert(j == j2o);
                    }
                }
                Some(mp)
            },
            None => None,
        }
    }
}

/// In a duplicate-free key sequence, a key names exactly one index.
proof fn lemma_mount_index_unique(keys: Seq<Seq<char>>, i: int, key: Seq<char>)
    requires
        forall|a: int, b: int| 0 <= a < b < keys.len() ==> keys[a] != keys[b],
        0 <= i < keys.len(),
        keys[i] == key,
    ensures
        forall|j: int| 0 <= j < keys.len() && keys[j] == key ==> j == i,
{
}

} // verus!
