use vstd::prelude::*;

verus! {

/// The branch targets of one method, each with its label number.
///
/// The targets are byte offsets into the method's instructions. They are kept
/// in ascending order without repetition, and the label number of a target is
/// its position in that order.
pub struct Labels {
    targets: Vec<usize>,
}

/// Whether each element of `s` is smaller than the next.
pub open spec fn strictly_increasing(s: Seq<usize>) -> bool {
    forall|i: int, j: int| 0 <= i < j < s.len() ==> s[i] < s[j]
}

impl View for Labels {
    type V = Seq<usize>;

    /// The targets in ascending order.
    closed spec fn view(&self) -> Seq<usize> {
        self.targets@
    }
}

/// Whether `target` is among `targets`.
pub open spec fn has_target(targets: Seq<usize>, target: int) -> bool {
    exists|i: int| 0 <= i < targets.len() && targets[i] == target
}

/// The label number of `target`: its position among `targets`.
pub open spec fn id_in(targets: Seq<usize>, target: int) -> Option<usize> {
    if has_target(targets, target) {
        Some((choose|i: int| 0 <= i < targets.len() && targets[i] == target) as usize)
    } else {
        None
    }
}

/// The ordered targets `s` with `t` put at its place among them, unless it
/// is there already.
pub open spec fn sorted_insert(s: Seq<usize>, t: usize) -> Seq<usize>
    decreases s.len(),
{
    if s.len() == 0 {
        seq![t]
    } else if s.last() < t {
        s.push(t)
    } else if s.last() == t {
        s
    } else {
        sorted_insert(s.drop_last(), t).push(s.last())
    }
}

/// Putting a target at its place is inserting it before the first target
/// that is not below it.
pub proof fn lemma_sorted_insert_at(s: Seq<usize>, t: usize, pos: int)
    requires
        strictly_increasing(s),
        0 <= pos <= s.len(),
        forall|k: int| 0 <= k < pos ==> s[k] < t,
        forall|k: int| pos <= k < s.len() ==> s[k] >= t,
    ensures
        pos < s.len() && s[pos] == t ==> sorted_insert(s, t) == s,
        !(pos < s.len() && s[pos] == t) ==> sorted_insert(s, t) == s.insert(pos, t),
    decreases s.len(),
{
    if s.len() == 0 {
        assert(s.insert(0, t) =~= seq![t]);
    } else if s.last() < t {
        assert(pos == s.len());
        assert(s.insert(pos, t) =~= s.push(t));
    } else if s.last() == t {
        assert(pos == s.len() - 1) by {
            if pos < s.len() - 1 {
                assert(s[pos] < s[s.len() - 1]);
            }
        }
    } else {
        let front = s.drop_last();
        assert(pos < s.len());
        assert(strictly_increasing(front));
        lemma_sorted_insert_at(front, t, pos);
        if pos < front.len() && front[pos] == t {
            assert(front.push(s.last()) =~= s);
        } else {
            assert(s[pos] != t) by {
                if pos == s.len() - 1 {
                } else {
                    assert(front[pos] == s[pos]);
                }
            }
            assert(front.insert(pos, t).push(s.last()) =~= s.insert(pos, t));
        }
    }
}

impl Labels {
    /// The targets are in ascending order without repetition.
    pub open spec fn wf(&self) -> bool {
        strictly_increasing(self@)
    }

    /// Whether `target` has a label.
    pub open spec fn contains(&self, target: int) -> bool {
        has_target(self@, target)
    }

    /// The label number of `target`: its position among the targets.
    pub open spec fn id_of(&self, target: int) -> Option<usize> {
        id_in(self@, target)
    }

    /// Among ordered targets a target stands at one position only, so its
    /// label number is that position.
    pub proof fn lemma_id_of_position(&self, i: int)
        requires
            self.wf(),
            0 <= i < self@.len(),
            self@.len() <= usize::MAX,
        ensures
            self.id_of(self@[i] as int) == Some(i as usize),
    {
        let target = self@[i] as int;
        let k = choose|k: int| 0 <= k < self@.len() && self@[k] == target;
        assert(k == i) by {
            if k < i {
                assert(self@[k] < self@[i]);
            }
            if i < k {
                assert(self@[i] < self@[k]);
            }
        }
    }

    /// No labels.
    pub fn new() -> (r: Labels)
        ensures
            r@ == Seq::<usize>::empty(),
            r.wf(),
    {
        Labels { targets: Vec::new() }
    }

    /// The number of labels.
    pub fn len(&self) -> (r: usize)
        ensures
            r == self@.len(),
    {
        self.targets.len()
    }

    /// The target of label number `id`.
    pub fn target(&self, id: usize) -> (r: usize)
        requires
            id < self@.len(),
        ensures
            r == self@[id as int],
    {
        self.targets[id]
    }

    /// The position of the first target that is not below `target`.
    fn lower_bound(&self, target: usize) -> (r: usize)
        requires
            self.wf(),
        ensures
            r <= self@.len(),
            forall|k: int| 0 <= k < r ==> self@[k] < target,
            forall|k: int| r <= k < self@.len() ==> self@[k] >= target,
    {
        let mut lo: usize = 0;
        let mut hi: usize = self.targets.len();
        while lo < hi
            invariant
                self.wf(),
                lo <= hi <= self@.len(),
                forall|k: int| 0 <= k < lo ==> self@[k] < target,
                forall|k: int| hi <= k < self@.len() ==> self@[k] >= target,
            decreases hi - lo,
        {
            let mid: usize = lo + (hi - lo) / 2;
            if self.targets[mid] < target {
                assert forall|k: int| 0 <= k < mid + 1 implies self@[k] < target by {
                    if k < mid {
                        assert(self@[k] < self@[mid as int]);
                    }
                }
                lo = mid + 1;
            } else {
                assert forall|k: int| mid <= k < self@.len() implies self@[k] >= target by {
                    if mid < k {
                        assert(self@[mid as int] < self@[k]);
                    }
                }
                hi = mid;
            }
        }
        lo
    }

    /// The label number of `target`, if it has one.
    pub fn get(&self, target: usize) -> (r: Option<usize>)
        requires
            self.wf(),
        ensures
            r == self.id_of(target as int),
            r matches Some(id) ==> id < self@.len() && self@[id as int] == target,
            r is None ==> !self.contains(target as int),
    {
        let pos: usize = self.lower_bound(target);
        if pos < self.targets.len() && self.targets[pos] == target {
            proof {
                self.lemma_id_of_position(pos as int);
            }
            Some(pos)
        } else {
            assert(!self.contains(target as int)) by {
                if self.contains(target as int) {
                    let k = choose|k: int| 0 <= k < self@.len() && self@[k] == target;
                    if k < pos {
                        assert(self@[k] < target);
                    } else if k > pos {
                        assert(self@[pos as int] < self@[k]);
                    }
                }
            }
            None
        }
    }

    /// Gives `target` a label, unless it has one. The targets after it move
    /// up by one label number.
    pub fn insert(&mut self, target: usize)
        requires
            old(self).wf(),
        ensures
            final(self).wf(),
            final(self).contains(target as int),
            forall|t: int| final(self).contains(t) <==> old(self).contains(t) || t == target,
            final(self)@ == sorted_insert(old(self)@, target),
            old(self).contains(target as int) ==> final(self)@ == old(self)@,
            !old(self).contains(target as int) ==> final(self)@.len() == old(self)@.len() + 1,
    {
        let pos: usize = self.lower_bound(target);
        proof {
            lemma_sorted_insert_at(self@, target, pos as int);
        }
        if pos < self.targets.len() && self.targets[pos] == target {
            assert(self@[pos as int] == target);
            return ;
        }
        let ghost before = self@;
        assert(!self.contains(target as int)) by {
            if self.contains(target as int) {
                let k = choose|k: int| 0 <= k < self@.len() && self@[k] == target;
                if k < pos {
                    assert(self@[k] < target);
                } else if k > pos {
                    assert(self@[pos as int] < self@[k]);
                }
            }
        }
        self.targets.insert(pos, target);
        proof {
            let after = self@;
            assert(after == before.insert(pos as int, target));
            assert(after[pos as int] == target);
            assert forall|i: int, j: int| 0 <= i < j < after.len() implies after[i] < after[j] by {
                if i < pos && j > pos {
                    assert(after[i] == before[i]);
                    assert(after[j] == before[j - 1]);
                    assert(before[i] < target);
                }
                if i < pos && j < pos {
                    assert(before[i] < before[j]);
                }
                if i > pos {
                    assert(before[i - 1] < before[j - 1]);
                }
                if i == pos {
                    assert(after[j] == before[j - 1]);
                    assert(before[j - 1] >= target);
                    assert(before[j - 1] != target) by {
                        if before[j - 1] == target {
                            assert(old(self).contains(target as int));
                        }
                    }
                }
                if j == pos {
                    assert(before[i] < target);
                }
            }
            assert forall|t: int| self.contains(t) <==> old(self).contains(t) || t == target by {
                if self.contains(t) {
                    let k = choose|k: int| 0 <= k < after.len() && after[k] == t;
                    if k < pos {
                        assert(before[k] == t);
                    } else if k > pos {
                        assert(before[k - 1] == t);
                    }
                }
                if old(self).contains(t) {
                    let k = choose|k: int| 0 <= k < before.len() && before[k] == t;
                    if k < pos {
                        assert(after[k] == t);
                    } else {
                        assert(after[k + 1] == t);
                    }
                }
            }
        }
    }
}

} // verus!
