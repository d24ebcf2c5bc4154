//! The lane registry: the ordered sequence of lane names that defines the
//! board's columns and the one lane a task may advance to.

use vstd::prelude::*;

verus! {

/// The values of a sequence of strings, in order.
pub open spec fn names_model(names: Seq<String>) -> Seq<Seq<char>> {
    Seq::new(names.len(), |i: int| names[i]@)
}

/// `i` is the first place at which `name` stands in `lanes`.
pub open spec fn is_lane_position(lanes: Seq<Seq<char>>, name: Seq<char>, i: int) -> bool {
    &&& 0 <= i < lanes.len()
    &&& lanes[i] == name
    &&& forall|j: int| 0 <= j < i ==> lanes[j] != name
}

/// The first place at which `name` stands in `lanes`, if it stands there at all.
pub open spec fn lane_position(lanes: Seq<Seq<char>>, name: Seq<char>) -> Option<int> {
    if exists|i: int| is_lane_position(lanes, name, i) {
        Some(choose|i: int| is_lane_position(lanes, name, i))
    } else {
        None
    }
}

/// The lane that follows `name` in registry order: none if `name` is the
/// last lane or no lane of the registry.
pub open spec fn next_lane_after(lanes: Seq<Seq<char>>, name: Seq<char>) -> Option<Seq<char>> {
    match lane_position(lanes, name) {
        Some(i) => if i + 1 < lanes.len() {
            Some(lanes[i + 1])
        } else {
            None
        },
        None => None,
    }
}

/// No lane name stands twice in `lanes`.
pub open spec fn distinct_lanes(lanes: Seq<Seq<char>>) -> bool {
    forall|i: int, j: int| 0 <= i < j < lanes.len() ==> lanes[i] != lanes[j]
}

/// A first place of `name` is the place that `lane_position` gives.
pub proof fn lemma_lane_position_is(lanes: Seq<Seq<char>>, name: Seq<char>, i: int)
    requires
        is_lane_position(lanes, name, i),
    ensures
        lane_position(lanes, name) == Some(i),
{
    let k = choose|k: int| is_lane_position(lanes, name, k);
    assert(is_lane_position(lanes, name, k));
    if k < i {
        assert(lanes[k] != name);
    } else if i < k {
        assert(lanes[i] != name);
    }
}

/// A name that stands nowhere in `lanes` has no place.
pub proof fn lemma_lane_position_none(lanes: Seq<Seq<char>>, name: Seq<char>)
    requires
        forall|j: int| 0 <= j < lanes.len() ==> lanes[j] != name,
    ensures
        lane_position(lanes, name) is None,
{
    if exists|i: int| is_lane_position(lanes, name, i) {
        let k = choose|k: int| is_lane_position(lanes, name, k);
        assert(lanes[k] != name);
    }
}

/// `lane_position` gives a place exactly for the names that stand in
/// `lanes`, and the place it gives is the first.
pub proof fn lemma_lane_position_some(lanes: Seq<Seq<char>>, name: Seq<char>)
    ensures
        lane_position(lanes, name) is Some <==> lanes.contains(name),
        lane_position(lanes, name) matches Some(i) ==> is_lane_position(lanes, name, i),
{
    if lanes.contains(name) {
        let k = choose|k: int| 0 <= k < lanes.len() && lanes[k] == name;
        lemma_first_place(lanes, name, k);
    } else {
        assert forall|j: int| 0 <= j < lanes.len() implies lanes[j] != name by {
            if lanes[j] == name {
                assert(lanes.contains(name));
            }
        }
        lemma_lane_position_none(lanes, name);
    }
}

/// Below any place of `name` there is a first one.
proof fn lemma_first_place(lanes: Seq<Seq<char>>, name: Seq<char>, k: int)
    requires
        0 <= k < lanes.len(),
        lanes[k] == name,
    ensures
        exists|i: int| is_lane_position(lanes, name, i),
    decreases k,
{
    if exists|j: int| 0 <= j < k && lanes[j] == name {
        let j = choose|j: int| 0 <= j < k && lanes[j] == name;
        lemma_first_place(lanes, name, j);
    } else {
        assert(is_lane_position(lanes, name, k));
    }
}

/// In a registry without repeated names every lane stands at its own place,
/// so the lane after it is the one at the next index.
pub proof fn lemma_distinct_lane_position(lanes: Seq<Seq<char>>, i: int)
    requires
        distinct_lanes(lanes),
        0 <= i < lanes.len(),
    ensures
        lane_position(lanes, lanes[i]) == Some(i),
        next_lane_after(lanes, lanes[i]) == if i + 1 < lanes.len() {
            Some(lanes[i + 1])
        } else {
            None
        },
{
    assert(is_lane_position(lanes, lanes[i], i));
    lemma_lane_position_is(lanes, lanes[i], i);
}

/// The ordered lane names of a board. The registry is fixed when the board's
/// controller is made.
#[derive(Clone, Debug, PartialEq, Eq)]
pub struct LaneRegistry {
    names: Vec<String>,
}

impl View for LaneRegistry {
    type V = Seq<Seq<char>>;

    closed spec fn view(&self) -> Seq<Seq<char>> {
        names_model(self.names@)
    }
}

impl LaneRegistry {
    /// A registry of the given names, in the given order.
    pub fn new(names: Vec<String>) -> (res: Self)
        ensures
            res@ == names_model(names@),
    {
        LaneRegistry { names }
    }

    /// The lane names in registry order.
    pub fn lane_names(&self) -> (res: &Vec<String>)
        ensures
            names_model(res@) == self@,
    {
        &self.names
    }

    /// The number of lanes.
    pub fn len(&self) -> (res: usize)
        ensures
            res == self@.len(),
    {
        self.names.len()
    }

    /// The name of the lane at `index`, if the registry has that many lanes.
    pub fn name_at(&self, index: usize) -> (res: Option<&String>)
        ensures
            match res {
                Some(name) => index < self@.len() && name@ == self@[index as int],
                None => index >= self@.len(),
            },
    {
        if index < self.names.len() {
            Some(&self.names[index])
        } else {
            None
        }
    }

    /// The first place at which `name` stands in the registry.
    pub fn position(&self, name: &String) -> (res: Option<usize>)
        ensures
            match res {
                Some(i) => i < self@.len() && lane_position(self@, name@) == Some(i as int),
                None => lane_position(self@, name@) is None,
            },
    {
        let mut i: usize = 0;
        while i < self.names.len()
            invariant
                i <= self.names.len(),
                forall|j: int| 0 <= j < i ==> self@[j] != name@,
            decreases self.names.len() - i,
        {
            if self.names[i] == *name {
                proof {
                    lemma_lane_position_is(self@, name@, i as int);
                }
                return Some(i);
            }
            i += 1;
        }
        proof {
            lemma_lane_position_none(self@, name@);
        }
        None
    }

    /// Whether `name` is a lane of the registry.
    pub fn contains(&self, name: &String) -> (res: bool)
        ensures
            res == self@.contains(name@),
    {
        proof {
            lemma_lane_position_some(self@, name@);
        }
        self.position(name).is_some()
    }

    /// Whether no lane name stands twice in the registry. A board is meant
    /// to have such a registry: with a repeated name, the tasks of that lane
    /// all show in the first column that bears it.
    pub fn has_distinct_names(&self) -> (res: bool)
        ensures
            res == distinct_lanes(self@),
    {
        let mut j: usize = 0;
        while j < self.names.len()
            invariant
                j <= self.names.len(),
                forall|a: int, b: int| 0 <= a < b < j ==> self@[a] != self@[b],
            decreases self.names.len() - j,
        {
            let mut i: usize = 0;
            while i < j
                invariant
                    i <= j < self.names.len(),
                    forall|a: int| 0 <= a < i ==> self@[a] != self@[j as int],
                decreases j - i,
            {
                if self.names[i] == self.names[j] {
                    assert(self@[i as int] == self@[j as int]);
                    return false;
                }
                i += 1;
            }
            j += 1;
        }
        true
    }

    /// The lane that follows `name` in registry order.
    pub fn next_lane_after(&self, name: &String) -> (res: Option<String>)
        ensures
            crate::task::text_model(res) == next_lane_after(self@, name@),
    {
        let count = self.names.len();
        match self.position(name) {
            Some(i) => {
                if i + 1 < count {
                    Some(self.names[i + 1].clone())
                } else {
                    None
                }
            },
            None => None,
        }
    }
}

} // verus!
