//! Parameter sets and their in-memory repository.
//!
//! Torque limits are carried in hundredths of a newton-metre and angle
//! limits in tenths of a degree.  The repository validates bounds and name
//! uniqueness on create and update, assigns fresh ids, and refuses to
//! delete the seeded default entries.

use vstd::prelude::*;

verus! {

/// Largest angle limit: 360 degrees, in tenths of a degree.
pub const MAX_ANGLE_DDEG: u32 = 3600;

/// Number of seeded default parameter sets; their ids may not be deleted.
pub const DEFAULT_PSET_COUNT: u32 = 5;

/// A parameter set: target ranges for torque and angle.
#[derive(Debug, Clone)]
pub struct Pset {
    /// Unique id.
    pub id: u32,
    /// Unique name.
    pub name: String,
    /// Torque minimum in hundredths of a newton-metre.
    pub torque_min_cnm: u32,
    /// Torque maximum in hundredths of a newton-metre.
    pub torque_max_cnm: u32,
    /// Angle minimum in tenths of a degree.
    pub angle_min_ddeg: u32,
    /// Angle maximum in tenths of a degree.
    pub angle_max_ddeg: u32,
    /// Free-form description.
    pub description: Option<String>,
}

impl Pset {
    /// Valid bounds: each minimum strictly below its maximum, and the
    /// angle maximum within a full turn.
    pub open spec fn spec_bounds_ok(&self) -> bool {
        &&& self.torque_min_cnm < self.torque_max_cnm
        &&& self.angle_min_ddeg < self.angle_max_ddeg
        &&& self.angle_max_ddeg <= MAX_ANGLE_DDEG
    }

    /// Create a parameter set.
    pub fn new(
        id: u32,
        name: String,
        torque_min_cnm: u32,
        torque_max_cnm: u32,
        angle_min_ddeg: u32,
        angle_max_ddeg: u32,
        description: Option<String>,
    ) -> (r: Self)
        ensures
            r.id == id,
            r.name == name,
            r.torque_min_cnm == torque_min_cnm,
            r.torque_max_cnm == torque_max_cnm,
            r.angle_min_ddeg == angle_min_ddeg,
            r.angle_max_ddeg == angle_max_ddeg,
            r.description == description,
    {
        Self { id, name, torque_min_cnm, torque_max_cnm, angle_min_ddeg, angle_max_ddeg, description }
    }

    /// Whether a measured torque and angle lie within this set's ranges.
    pub fn is_within_range(&self, torque_cnm: u32, angle_ddeg: u32) -> (r: bool)
        ensures
            r == (self.torque_min_cnm <= torque_cnm <= self.torque_max_cnm
                && self.angle_min_ddeg <= angle_ddeg <= self.angle_max_ddeg),
    {
        torque_cnm >= self.torque_min_cnm && torque_cnm <= self.torque_max_cnm && angle_ddeg
            >= self.angle_min_ddeg && angle_ddeg <= self.angle_max_ddeg
    }

    /// Validate the bounds.
    pub fn bounds_ok(&self) -> (r: bool)
        ensures
            r == self.spec_bounds_ok(),
    {
        self.torque_min_cnm < self.torque_max_cnm && self.angle_min_ddeg < self.angle_max_ddeg
            && self.angle_max_ddeg <= MAX_ANGLE_DDEG
    }
}

/// In-memory repository of parameter sets, seeded with five defaults.
pub struct InMemoryPsetRepository {
    psets: Vec<Pset>,
}

impl InMemoryPsetRepository {
    /// The stored parameter sets, in insertion order.
    pub closed spec fn spec_psets(&self) -> Seq<Pset> {
        self.psets@
    }

    /// Ids are unique across the repository.
    pub open spec fn spec_unique_ids(&self) -> bool {
        forall|i: int, j: int|
            0 <= i < j < self.spec_psets().len() ==> (#[trigger] self.spec_psets()[i]).id != (
            #[trigger] self.spec_psets()[j]).id
    }

    /// The stored set with a given id, if any.
    pub open spec fn spec_find(&self, id: u32) -> Option<Pset> {
        if exists|i: int| 0 <= i < self.spec_psets().len() && (#[trigger] self.spec_psets()[i]).id == id {
            Some(
                self.spec_psets()[choose|i: int|
                    0 <= i < self.spec_psets().len() && (#[trigger] self.spec_psets()[i]).id == id],
            )
        } else {
            None
        }
    }

    /// Create a repository seeded with the five default parameter sets:
    /// Light Duty, Standard, Heavy Duty, Precision and Extra Heavy, with
    /// ids one to five and their fixed torque and angle ranges.
    pub fn new() -> (r: Self)
        ensures
            r.spec_psets().len() == DEFAULT_PSET_COUNT,
            r.spec_unique_ids(),
            forall|i: int|
                0 <= i < r.spec_psets().len() ==> (#[trigger] r.spec_psets()[i]).id == i + 1,
            forall|i: int|
                0 <= i < r.spec_psets().len() ==> (#[trigger] r.spec_psets()[i]).spec_bounds_ok(),
            r.spec_psets()[0].name@ == "Light Duty"@ && r.spec_psets()[0].torque_min_cnm == 500
                && r.spec_psets()[0].torque_max_cnm == 1000 && r.spec_psets()[0].angle_min_ddeg
                == 300 && r.spec_psets()[0].angle_max_ddeg == 450,
            r.spec_psets()[1].name@ == "Standard"@ && r.spec_psets()[1].torque_min_cnm == 1000
                && r.spec_psets()[1].torque_max_cnm == 1500 && r.spec_psets()[1].angle_min_ddeg
                == 350 && r.spec_psets()[1].angle_max_ddeg == 500,
            r.spec_psets()[2].name@ == "Heavy Duty"@ && r.spec_psets()[2].torque_min_cnm == 1500
                && r.spec_psets()[2].torque_max_cnm == 2500 && r.spec_psets()[2].angle_min_ddeg
                == 400 && r.spec_psets()[2].angle_max_ddeg == 600,
            r.spec_psets()[3].name@ == "Precision"@ && r.spec_psets()[3].torque_min_cnm == 800
                && r.spec_psets()[3].torque_max_cnm == 1200 && r.spec_psets()[3].angle_min_ddeg
                == 200 && r.spec_psets()[3].angle_max_ddeg == 300,
            r.spec_psets()[4].name@ == "Extra Heavy"@ && r.spec_psets()[4].torque_min_cnm == 2500
                && r.spec_psets()[4].torque_max_cnm == 4000 && r.spec_psets()[4].angle_min_ddeg
                == 500 && r.spec_psets()[4].angle_max_ddeg == 900,
    {
        let mut psets: Vec<Pset> = Vec::new();
        psets.push(
            Pset::new(
                1,
                "Light Duty".to_owned(),
                500,
                1000,
                300,
                450,
                Some("Low torque applications (e.g., electronics, small assemblies)".to_owned()),
            ),
        );
        psets.push(
            Pset::new(
                2,
                "Standard".to_owned(),
                1000,
                1500,
                350,
                500,
                Some("General purpose tightening operations".to_owned()),
            ),
        );
        psets.push(
            Pset::new(
                3,
                "Heavy Duty".to_owned(),
                1500,
                2500,
                400,
                600,
                Some("High torque applications (e.g., automotive, machinery)".to_owned()),
            ),
        );
        psets.push(
            Pset::new(
                4,
                "Precision".to_owned(),
                800,
                1200,
                200,
                300,
                Some("Tight tolerance requirements".to_owned()),
            ),
        );
        psets.push(
            Pset::new(
                5,
                "Extra Heavy".to_owned(),
                2500,
                4000,
                500,
                900,
                Some("Maximum torque applications (e.g., industrial equipment)".to_owned()),
            ),
        );
        Self { psets }
    }

    /// All stored parameter sets, in order.
    pub fn get_all(&self) -> (r: Vec<Pset>)
        ensures
            r@.len() == self.spec_psets().len(),
            forall|i: int|
                0 <= i < r@.len() ==> (#[trigger] r@[i]).id == self.spec_psets()[i].id && r@[i].name
                    == self.spec_psets()[i].name && r@[i].torque_min_cnm
                    == self.spec_psets()[i].torque_min_cnm && r@[i].torque_max_cnm
                    == self.spec_psets()[i].torque_max_cnm && r@[i].angle_min_ddeg
                    == self.spec_psets()[i].angle_min_ddeg && r@[i].angle_max_ddeg
                    == self.spec_psets()[i].angle_max_ddeg && r@[i].description
                    == self.spec_psets()[i].description,
    {
        let mut r: Vec<Pset> = Vec::new();
        let mut i: usize = 0;
        while i < self.psets.len()
            invariant
                0 <= i <= self.psets@.len(),
                r@.len() == i,
                forall|j: int|
                    0 <= j < i ==> (#[trigger] r@[j]).id == self.psets@[j].id && r@[j].name
                        == self.psets@[j].name && r@[j].torque_min_cnm
                        == self.psets@[j].torque_min_cnm && r@[j].torque_max_cnm
                        == self.psets@[j].torque_max_cnm && r@[j].angle_min_ddeg
                        == self.psets@[j].angle_min_ddeg && r@[j].angle_max_ddeg
                        == self.psets@[j].angle_max_ddeg && r@[j].description
                        == self.psets@[j].description,
            decreases self.psets@.len() - i,
        {
            r.push(self.clone_pset_at(i));
            i = i + 1;
        }
        r
    }

    /// A copy of the stored set at an index.
    fn clone_pset_at(&self, i: usize) -> (r: Pset)
        requires
            i < self.spec_psets().len(),
        ensures
            r.id == self.spec_psets()[i as int].id,
            r.name == self.spec_psets()[i as int].name,
            r.torque_min_cnm == self.spec_psets()[i as int].torque_min_cnm,
            r.torque_max_cnm == self.spec_psets()[i as int].torque_max_cnm,
            r.angle_min_ddeg == self.spec_psets()[i as int].angle_min_ddeg,
            r.angle_max_ddeg == self.spec_psets()[i as int].angle_max_ddeg,
            r.description == self.spec_psets()[i as int].description,
    {
        let p = &self.psets[i];
        Pset {
            id: p.id,
            name: p.name.clone(),
            torque_min_cnm: p.torque_min_cnm,
            torque_max_cnm: p.torque_max_cnm,
            angle_min_ddeg: p.angle_min_ddeg,
            angle_max_ddeg: p.angle_max_ddeg,
            description: match &p.description {
                Some(d) => Some(d.clone()),
                None => None,
            },
        }
    }

    /// The stored set with the given id, if any.
    pub fn get_by_id(&self, id: u32) -> (r: Option<Pset>)
        requires
            self.spec_unique_ids(),
        ensures
            r is Some <==> self.spec_find(id) is Some,
            r matches Some(p) ==> self.spec_find(id) matches Some(q) && p.id == q.id && p.name
                == q.name && p.torque_min_cnm == q.torque_min_cnm && p.torque_max_cnm
                == q.torque_max_cnm && p.angle_min_ddeg == q.angle_min_ddeg && p.angle_max_ddeg
                == q.angle_max_ddeg && p.description == q.description,
            r matches Some(p) ==> p.id == id,
    {
        let mut i: usize = 0;
        while i < self.psets.len()
            invariant
                0 <= i <= self.psets@.len(),
                forall|j: int| 0 <= j < i ==> (#[trigger] self.psets@[j]).id != id,
                self.spec_unique_ids(),
            decreases self.psets@.len() - i,
        {
            if self.psets[i].id == id {
                proof {
                    let k = choose|k: int|
                        0 <= k < self.spec_psets().len() && (#[trigger] self.spec_psets()[k]).id
                            == id;
                    if k < (i as int) {
                        assert(self.spec_psets()[k].id != self.spec_psets()[i as int].id);
                    } else if (i as int) < k {
                        assert(self.spec_psets()[i as int].id != self.spec_psets()[k].id);
                    }
                }
                return Some(self.clone_pset_at(i));
            }
            i = i + 1;
        }
        None
    }

    /// Whether a stored set already carries this name.
    fn name_taken(&self, name: &String, skip_id: Option<u32>) -> (r: bool)
        ensures
            r == (exists|i: int|
                0 <= i < self.spec_psets().len() && (#[trigger] self.spec_psets()[i]).name@ == name@
                    && (skip_id matches Some(s) ==> self.spec_psets()[i].id != s)),
    {
        let mut i: usize = 0;
        while i < self.psets.len()
            invariant
                0 <= i <= self.psets@.len(),
                !(exists|j: int|
                    0 <= j < i && (#[trigger] self.psets@[j]).name@ == name@ && (
                    skip_id matches Some(s) ==> self.psets@[j].id != s)),
            decreases self.psets@.len() - i,
        {
            let skip_this = match skip_id {
                Some(s) => self.psets[i].id == s,
                None => false,
            };
            if !skip_this && self.psets[i].name.eq(name) {
                return true;
            }
            i = i + 1;
        }
        false
    }

    /// Create a parameter set.  The bounds must be valid and the name not
    /// yet taken; the assigned id is one past the largest stored id.
    pub fn create(&mut self, pset: Pset) -> (r: Result<Pset, String>)
        ensures
            r is Ok <==> pset.spec_bounds_ok() && old(self).spec_psets().len() < usize::MAX && !(
            exists|i: int|
                0 <= i < old(self).spec_psets().len() && (#[trigger] old(self).spec_psets()[i]).name@
                    == pset.name@) && (forall|i: int|
                0 <= i < old(self).spec_psets().len() ==> (#[trigger] old(self).spec_psets()[i]).id < u32::MAX),
            r matches Ok(created) ==> {
                &&& final(self).spec_psets().len() == old(self).spec_psets().len() + 1
                &&& final(self).spec_psets().drop_last() == old(self).spec_psets()
                &&& final(self).spec_psets().last().name == pset.name
                &&& final(self).spec_psets().last().id == created.id
                &&& created.name == pset.name
                &&& forall|i: int|
                    0 <= i < old(self).spec_psets().len() ==> (#[trigger] old(self).spec_psets()[i]).id < created.id
            },
            r is Err ==> *final(self) == *old(self),
            old(self).spec_unique_ids() && r is Ok ==> final(self).spec_unique_ids(),
    {
        if !pset.bounds_ok() {
            return Err("each minimum must lie below its maximum, within a full turn".to_owned());
        }
        if self.name_taken(&pset.name, None) {
            return Err("a parameter set with this name already exists".to_owned());
        }
        if self.psets.len() == usize::MAX {
            return Err("the repository is full".to_owned());
        }

        let mut max_id: u32 = 0;
        let mut i: usize = 0;
        while i < self.psets.len()
            invariant
                0 <= i <= self.psets@.len(),
                forall|j: int| 0 <= j < i ==> (#[trigger] self.psets@[j]).id <= max_id,
                max_id == 0 || exists|j: int| 0 <= j < i && (#[trigger] self.psets@[j]).id == max_id,
            decreases self.psets@.len() - i,
        {
            if self.psets[i].id > max_id {
                max_id = self.psets[i].id;
            }
            i = i + 1;
        }
        if max_id == u32::MAX {
            return Err("no parameter set id is left".to_owned());
        }

        let created = Pset {
            id: max_id + 1,
            name: pset.name,
            torque_min_cnm: pset.torque_min_cnm,
            torque_max_cnm: pset.torque_max_cnm,
            angle_min_ddeg: pset.angle_min_ddeg,
            angle_max_ddeg: pset.angle_max_ddeg,
            description: pset.description,
        };
        let result = Pset {
            id: created.id,
            name: created.name.clone(),
            torque_min_cnm: created.torque_min_cnm,
            torque_max_cnm: created.torque_max_cnm,
            angle_min_ddeg: created.angle_min_ddeg,
            angle_max_ddeg: created.angle_max_ddeg,
            description: match &created.description {
                Some(d) => Some(d.clone()),
                None => None,
            },
        };
        self.psets.push(created);
        proof {
            assert(final(self).spec_psets().drop_last() =~= old(self).spec_psets());
        }
        Ok(result)
    }

    /// Update the parameter set with the given id.  Succeeds exactly when
    /// the bounds are valid, the id is stored, and no other set carries the
    /// name; the stored id is kept.
    pub fn update(&mut self, id: u32, pset: Pset) -> (r: Result<Pset, String>)
        ensures
            r is Ok <==> pset.spec_bounds_ok() && old(self).spec_find(id) is Some && !(exists|
                i: int,
            |
                0 <= i < old(self).spec_psets().len() && (#[trigger] old(
                    self,
                ).spec_psets()[i]).name@ == pset.name@ && old(self).spec_psets()[i].id != id),
            r is Ok ==> {
                &&& final(self).spec_psets().len() == old(self).spec_psets().len()
                &&& exists|i: int|
                    {
                        &&& 0 <= i < old(self).spec_psets().len()
                        &&& (#[trigger] old(self).spec_psets()[i]).id == id
                        &&& final(self).spec_psets()[i].id == id
                        &&& final(self).spec_psets()[i].name == pset.name
                        &&& final(self).spec_psets()[i].torque_min_cnm == pset.torque_min_cnm
                        &&& final(self).spec_psets()[i].torque_max_cnm == pset.torque_max_cnm
                        &&& final(self).spec_psets()[i].angle_min_ddeg == pset.angle_min_ddeg
                        &&& final(self).spec_psets()[i].angle_max_ddeg == pset.angle_max_ddeg
                        &&& forall|j: int|
                            0 <= j < old(self).spec_psets().len() && j != i
                                ==> final(self).spec_psets()[j] == old(self).spec_psets()[j]
                    }
            },
            r is Err ==> *final(self) == *old(self),
            r is Ok ==> pset.spec_bounds_ok(),
            old(self).spec_unique_ids() ==> final(self).spec_unique_ids(),
    {
        if !pset.bounds_ok() {
            return Err("each minimum must lie below its maximum, within a full turn".to_owned());
        }
        if self.name_taken(&pset.name, Some(id)) {
            return Err("a parameter set with this name already exists".to_owned());
        }

        let mut i: usize = 0;
        while i < self.psets.len()
            invariant
                0 <= i <= self.psets@.len(),
                forall|j: int| 0 <= j < i ==> (#[trigger] self.psets@[j]).id != id,
                *self == *old(self),
                pset.spec_bounds_ok(),
                !(exists|j: int|
                    0 <= j < old(self).spec_psets().len() && (#[trigger] old(
                        self,
                    ).spec_psets()[j]).name@ == pset.name@ && old(self).spec_psets()[j].id != id),
            decreases self.psets@.len() - i,
        {
            if self.psets[i].id == id {
                let updated = Pset {
                    id,
                    name: pset.name,
                    torque_min_cnm: pset.torque_min_cnm,
                    torque_max_cnm: pset.torque_max_cnm,
                    angle_min_ddeg: pset.angle_min_ddeg,
                    angle_max_ddeg: pset.angle_max_ddeg,
                    description: pset.description,
                };
                let result = Pset {
                    id,
                    name: updated.name.clone(),
                    torque_min_cnm: updated.torque_min_cnm,
                    torque_max_cnm: updated.torque_max_cnm,
                    angle_min_ddeg: updated.angle_min_ddeg,
                    angle_max_ddeg: updated.angle_max_ddeg,
                    description: match &updated.description {
                        Some(d) => Some(d.clone()),
                        None => None,
                    },
                };
                proof {
                    assert(old(self).spec_psets()[i as int].id == id);
                }
                self.psets.set(i, updated);
                return Ok(result);
            }
            i = i + 1;
        }
        proof {
            assert(self.spec_find(id) is None);
        }
        Err("no parameter set has this id".to_owned())
    }

    /// Delete the parameter set with the given id.  Succeeds exactly when
    /// the id is stored and is not one of the seeded defaults; on success
    /// only that entry is removed and every other entry is kept in order.
    pub fn delete(&mut self, id: u32) -> (r: Result<(), String>)
        requires
            old(self).spec_unique_ids(),
        ensures
            final(self).spec_unique_ids(),
            r is Ok <==> id > DEFAULT_PSET_COUNT && old(self).spec_find(id) is Some,
            r is Err ==> *final(self) == *old(self),
            r is Ok ==> exists|i: int|
                {
                    &&& 0 <= i < old(self).spec_psets().len()
                    &&& (#[trigger] old(self).spec_psets()[i]).id == id
                    &&& final(self).spec_psets() == old(self).spec_psets().remove(i)
                },
            r is Ok ==> {
                &&& final(self).spec_psets().len() + 1 == old(self).spec_psets().len()
                &&& forall|i: int|
                    0 <= i < final(self).spec_psets().len() ==> (#[trigger] final(self).spec_psets()[i]).id != id
            },
    {
        if id <= DEFAULT_PSET_COUNT {
            return Err("the default parameter sets cannot be deleted".to_owned());
        }
        let mut i: usize = 0;
        while i < self.psets.len()
            invariant
                0 <= i <= self.psets@.len(),
                forall|j: int| 0 <= j < i ==> (#[trigger] self.psets@[j]).id != id,
                *self == *old(self),
                id > DEFAULT_PSET_COUNT,
                old(self).spec_unique_ids(),
            decreases self.psets@.len() - i,
        {
            if self.psets[i].id == id {
                proof {
                    assert(old(self).spec_psets()[i as int].id == id);
                }
                let removed = self.psets.remove(i);
                proof {
                    lemma_remove_keeps_others(old(self).spec_psets(), self.psets@, i as int, id);
                }
                return Ok(());
            }
            i = i + 1;
        }
        proof {
            assert(self.spec_find(id) is None);
        }
        Err("no parameter set has this id".to_owned())
    }
}

/// Whether a deletion request conflicts with the current selection: the
/// selected parameter set may not be deleted.
pub fn delete_conflicts_with_selection(current_pset_id: Option<u32>, id: u32) -> (r: bool)
    ensures
        r == (current_pset_id == Some(id)),
{
    match current_pset_id {
        Some(current) => current == id,
        None => false,
    }
}

/// Removing the only occurrence of an id leaves no element with that id,
/// provided ids were unique up to the removal point.
proof fn lemma_remove_keeps_others(pre: Seq<Pset>, post: Seq<Pset>, at: int, id: u32)
    requires
        0 <= at < pre.len(),
        post == pre.remove(at),
        forall|j: int| 0 <= j < at ==> (#[trigger] pre[j]).id != id,
        pre[at].id == id,
        forall|i: int, j: int|
            0 <= i < j < pre.len() ==> (#[trigger] pre[i]).id != (#[trigger] pre[j]).id,
    ensures
        forall|i: int| 0 <= i < post.len() ==> (#[trigger] post[i]).id != id,
        forall|i: int, j: int|
            0 <= i < j < post.len() ==> (#[trigger] post[i]).id != (#[trigger] post[j]).id,
{
    assert forall|i: int, j: int|
        0 <= i < j < post.len() implies (#[trigger] post[i]).id != (#[trigger] post[j]).id by {
        let pi: int = if i < at { i } else { i + 1 };
        let pj: int = if j < at { j } else { j + 1 };
        assert(post[i] == pre[pi]);
        assert(post[j] == pre[pj]);
    }
    assert forall|i: int| 0 <= i < post.len() implies (#[trigger] post[i]).id != id by {
        if i < at {
            assert(post[i] == pre[i]);
        } else {
            assert(post[i] == pre[i + 1]);
            assert(pre[at].id != pre[i + 1].id);
        }
    }
}

impl Default for InMemoryPsetRepository {
    /// A repository seeded with the five default parameter sets.
    fn default() -> (r: Self)
        ensures
            r.spec_psets().len() == DEFAULT_PSET_COUNT,
            r.spec_unique_ids(),
    {
        Self::new()
    }
}

} // verus!
