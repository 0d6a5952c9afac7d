use vstd::prelude::*;

verus! {

/// Three-rep maxima of the four barbell lifts, each in hundredths of the
/// weight unit (10_050 stands for 100.5).
#[derive(Debug, Clone, Copy, PartialEq, Eq, Structural)]
pub struct Lifts {
    pub bench_press: u32,
    pub squat: u32,
    pub deadlift: u32,
    pub overhead_press: u32,
}

/// Repetitions performed on the AMRAP set of each lift in one session.
#[derive(Debug, Clone, Copy, PartialEq, Eq, Structural)]
pub struct AmrapReps {
    pub bench_press: u8,
    pub squat: u8,
    pub deadlift: u8,
    pub overhead_press: u8,
}

/// One prescribed set. `weight` is in hundredths of the weight unit,
/// `percentage` is the share of the working max in percent, and a `reps` of
/// -1 marks an AMRAP set with no fixed count.
#[derive(Debug, Clone, Copy, PartialEq, Eq, Structural)]
pub struct TrainingSet {
    pub weight: u32,
    pub reps: i8,
    pub percentage: u8,
}

/// The sets of one lift for one training day.
#[derive(Debug, Clone)]
pub struct ProgramDay {
    pub lift_name: String,
    pub sets: Vec<TrainingSet>,
}

/// One week of a wave: its label, its position in the wave and one day per
/// lift.
#[derive(Debug, Clone)]
pub struct ProgramWeek {
    pub macro_week: u8,
    pub wave_type: String,
    pub week_in_wave: u8,
    pub days: Vec<ProgramDay>,
}

/// A map from text keys (wave keys such as "1-10s") to values, kept as a
/// list of entries whose keys are pairwise distinct.
#[derive(Debug, Clone)]
pub struct History<V> {
    entries: Vec<(String, V)>,
}

impl<V: Copy> History<V> {
    /// No two entries share a key.
    pub closed spec fn wf(&self) -> bool {
        forall|i: int, j: int|
            0 <= i < j < self.entries@.len() ==> #[trigger] self.entries@[i].0@
                != #[trigger] self.entries@[j].0@
    }

    pub closed spec fn has_key_at(&self, k: Seq<char>, i: int) -> bool {
        0 <= i < self.entries@.len() && self.entries@[i].0@ == k
    }

    /// The key/value mapping that the entries hold.
    pub closed spec fn view(&self) -> Map<Seq<char>, V> {
        Map::new(
            |k: Seq<char>| exists|i: int| #[trigger] self.has_key_at(k, i),
            |k: Seq<char>| self.entries@[choose|i: int| #[trigger] self.has_key_at(k, i)].1,
        )
    }

    proof fn lemma_value_at(&self, i: int)
        requires
            self.wf(),
            0 <= i < self.entries@.len(),
        ensures
            self@.contains_key(self.entries@[i].0@),
            self@[self.entries@[i].0@] == self.entries@[i].1,
    {
        let k = self.entries@[i].0@;
        assert(self.has_key_at(k, i));
        let j = choose|j: int| #[trigger] self.has_key_at(k, j);
        assert(self.has_key_at(k, j));
        assert(i == j) by {
            if i < j {
                assert(self.entries@[i].0@ != self.entries@[j].0@);
            } else if j < i {
                assert(self.entries@[j].0@ != self.entries@[i].0@);
            }
        }
    }

    /// An empty history.
    pub fn new() -> (r: Self)
        ensures
            r.wf(),
            r@ == Map::<Seq<char>, V>::empty(),
    {
        let r = History { entries: Vec::new() };
        assert(r@ =~= Map::<Seq<char>, V>::empty());
        r
    }

    /// The position of the entry with key `key`, if there is one.
    fn position(&self, key: &String) -> (r: Option<usize>)
        requires
            self.wf(),
        ensures
            match r {
                Some(i) => self.has_key_at(key@, i as int),
                None => !self@.contains_key(key@),
            },
    {
        let mut i: usize = 0;
        while i < self.entries.len()
            invariant
                i <= self.entries@.len(),
                forall|j: int| 0 <= j < i ==> self.entries@[j].0@ != key@,
            decreases self.entries@.len() - i,
        {
            if self.entries[i].0 == *key {
                return Some(i);
            }
            i = i + 1;
        }
        proof {
            if self@.contains_key(key@) {
                let j = choose|j: int| #[trigger] self.has_key_at(key@, j);
                assert(self.entries@[j].0@ != key@);
            }
        }
        None
    }

    /// The value stored under `key`.
    pub fn get(&self, key: &String) -> (r: Option<V>)
        requires
            self.wf(),
        ensures
            r == (if self@.contains_key(key@) {
                Some(self@[key@])
            } else {
                None::<V>
            }),
    {
        match self.position(key) {
            Some(i) => {
                proof {
                    self.lemma_value_at(i as int);
                }
                Some(self.entries[i].1)
            },
            None => None,
        }
    }

    /// Stores `value` under `key`, replacing what was there.
    pub fn insert(&mut self, key: String, value: V)
        requires
            old(self).wf(),
        ensures
            final(self).wf(),
            final(self)@ == old(self)@.insert(key@, value),
    {
        let ghost k = key@;
        match self.position(&key) {
            Some(i) => {
                self.entries.set(i, (key, value));
                assert forall|a: int, b: int|
                    0 <= a < b < self.entries@.len() implies #[trigger] self.entries@[a].0@
                    != #[trigger] self.entries@[b].0@ by {
                    assert(old(self).entries@[a].0@ != old(self).entries@[b].0@);
                }
                assert forall|kk: Seq<char>| #[trigger] self@.contains_key(kk) == old(self)@.insert(k, value).contains_key(kk)
                    && (self@.contains_key(kk) ==> self@[kk] == old(self)@.insert(k, value)[kk]) by {
                    if kk == k {
                        self.lemma_value_at(i as int);
                    } else {
                        if self@.contains_key(kk) {
                            let j = choose|j: int| #[trigger] self.has_key_at(kk, j);
                            assert(old(self).has_key_at(kk, j));
                            self.lemma_value_at(j);
                            old(self).lemma_value_at(j);
                        }
                        if old(self)@.contains_key(kk) {
                            let j = choose|j: int| #[trigger] old(self).has_key_at(kk, j);
                            assert(self.has_key_at(kk, j));
                        }
                    }
                }
                assert(self@ =~= old(self)@.insert(k, value));
            },
            None => {
                self.entries.push((key, value));
                let ghost n = old(self).entries@.len() as int;
                assert forall|a: int, b: int|
                    0 <= a < b < self.entries@.len() implies #[trigger] self.entries@[a].0@
                    != #[trigger] self.entries@[b].0@ by {
                    if b == n {
                        assert(old(self).has_key_at(self.entries@[a].0@, a));
                    } else {
                        assert(old(self).entries@[a].0@ != old(self).entries@[b].0@);
                    }
                }
                assert forall|kk: Seq<char>| #[trigger] self@.contains_key(kk) == old(self)@.insert(k, value).contains_key(kk)
                    && (self@.contains_key(kk) ==> self@[kk] == old(self)@.insert(k, value)[kk]) by {
                    if kk == k {
                        self.lemma_value_at(n);
                    } else {
                        if self@.contains_key(kk) {
                            let j = choose|j: int| #[trigger] self.has_key_at(kk, j);
                            assert(old(self).has_key_at(kk, j));
                            self.lemma_value_at(j);
                            old(self).lemma_value_at(j);
                        }
                        if old(self)@.contains_key(kk) {
                            let j = choose|j: int| #[trigger] old(self).has_key_at(kk, j);
                            assert(self.has_key_at(kk, j));
                        }
                    }
                }
                assert(self@ =~= old(self)@.insert(k, value));
            },
        }
    }

    /// The entries, in the order in which their keys were first stored.
    pub fn entries(&self) -> (r: &Vec<(String, V)>)
        requires
            self.wf(),
        ensures
            forall|i: int, j: int|
                0 <= i < j < r@.len() ==> #[trigger] r@[i].0@ != #[trigger] r@[j].0@,
            forall|i: int|
                0 <= i < r@.len() ==> self@.contains_key((#[trigger] r@[i]).0@) && self@[r@[i].0@]
                    == r@[i].1,
            forall|k: Seq<char>|
                #[trigger] self@.contains_key(k) ==> exists|i: int|
                    0 <= i < r@.len() && (#[trigger] r@[i]).0@ == k,
    {
        assert forall|i: int| 0 <= i < self.entries@.len() implies self@.contains_key(
            (#[trigger] self.entries@[i]).0@,
        ) && self@[self.entries@[i].0@] == self.entries@[i].1 by {
            self.lemma_value_at(i);
        }
        assert forall|k: Seq<char>| #[trigger] self@.contains_key(k) implies exists|i: int|
            0 <= i < self.entries@.len() && (#[trigger] self.entries@[i]).0@ == k by {
            let j = choose|j: int| #[trigger] self.has_key_at(k, j);
            assert(self.entries@[j].0@ == k);
        }
        &self.entries
    }
}

/// A lifter's name with the 3RMs and the AMRAP results recorded per wave key.
#[derive(Debug, Clone)]
pub struct User {
    pub name: String,
    pub lift_history: History<Lifts>,
    pub amrap_history: History<AmrapReps>,
}

impl User {
    pub open spec fn wf(&self) -> bool {
        self.lift_history.wf() && self.amrap_history.wf()
    }
}

} // verus!
