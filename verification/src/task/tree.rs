//! Walking the tree of tasks from a task down to its descendants.

use vstd::prelude::*;
use crate::task::manager::{distinct_ids, lemma_lookup, TaskManager, TaskManagerView};
use crate::task::structs::TaskId;

verus! {

impl TaskManagerView {
    /// The live tasks among `ids`, each followed by its descendants down
    /// to `depth` generations: a task stands before its children, and
    /// children stand in the order in which their parent lists them.
    pub open spec fn walk(self, ids: Seq<TaskId>, depth: nat) -> Seq<TaskId>
        decreases depth, ids.len(),
    {
        if ids.len() == 0 {
            Seq::empty()
        } else {
            let first = ids[0];
            let head = if self.has(first) {
                seq![first] + (if depth > 0 {
                    self.walk(self.procs[first].children, (depth - 1) as nat)
                } else {
                    Seq::empty()
                })
            } else {
                Seq::empty()
            };
            head + self.walk(ids.drop_first(), depth)
        }
    }

    /// The task `id` and its descendants down to `depth` generations.
    pub open spec fn subtree(self, id: TaskId, depth: nat) -> Seq<TaskId> {
        self.walk(seq![id], depth)
    }

    /// A walk over two lists, one after the other, is the walk over the
    /// first followed by the walk over the second.
    pub proof fn lemma_walk_concat(self, a: Seq<TaskId>, b: Seq<TaskId>, depth: nat)
        ensures
            self.walk(a + b, depth) == self.walk(a, depth) + self.walk(b, depth),
        decreases a.len(),
    {
        if a.len() == 0 {
            assert(a + b =~= b);
            assert(self.walk(a, depth) + self.walk(b, depth) =~= self.walk(b, depth));
        } else {
            assert((a + b).drop_first() =~= a.drop_first() + b);
            assert((a + b)[0] == a[0]);
            self.lemma_walk_concat(a.drop_first(), b, depth);
            let head = if self.has(a[0]) {
                seq![a[0]] + (if depth > 0 {
                    self.walk(self.procs[a[0]].children, (depth - 1) as nat)
                } else {
                    Seq::empty()
                })
            } else {
                Seq::empty()
            };
            assert(self.walk(a + b, depth) == head + self.walk(a.drop_first() + b, depth));
            assert(self.walk(a, depth) == head + self.walk(a.drop_first(), depth));
            assert(head + (self.walk(a.drop_first(), depth) + self.walk(b, depth)) =~= (head
                + self.walk(a.drop_first(), depth)) + self.walk(b, depth));
        }
    }
}

impl TaskManager {
    /// The task `id` and all that descends from it, as far down as there
    /// are tasks: a task stands before its children, and children stand
    /// in the order in which their parent lists them. A number that no
    /// live task has gives an empty walk.
    pub fn traverse(&self, id: TaskId) -> (r: Vec<TaskId>)
        requires
            distinct_ids(self.tasks@),
        ensures
            r@ == self@.subtree(id, self.tasks.len() as nat),
    {
        let mut out: Vec<TaskId> = Vec::new();
        self.visit(id, self.tasks.len(), &mut out);
        proof {
            assert(Seq::<TaskId>::empty() + self@.subtree(id, self.tasks.len() as nat)
                =~= self@.subtree(id, self.tasks.len() as nat));
        }
        out
    }

    /// Adds the task `id` and its descendants down to `depth` generations
    /// to `out`.
    fn visit(&self, id: TaskId, depth: usize, out: &mut Vec<TaskId>)
        requires
            distinct_ids(self.tasks@),
        ensures
            final(out)@ == old(out)@ + self@.walk(seq![id], depth as nat),
        decreases depth,
    {
        let ghost v = self@;
        proof {
            assert(seq![id].drop_first() =~= Seq::<TaskId>::empty());
            assert(v.walk(seq![id].drop_first(), depth as nat) =~= Seq::<TaskId>::empty());
        }
        match self.find(id) {
            None => {
                proof {
                    assert(v.walk(seq![id], depth as nat) =~= Seq::<TaskId>::empty());
                    assert(out@ =~= old(out)@ + v.walk(seq![id], depth as nat));
                }
            },
            Some(i) => {
                proof {
                    lemma_lookup(self.tasks@, i as int);
                }
                out.push(id);
                if depth > 0 {
                    let ghost kids = self.tasks@[i as int].children@;
                    let n = self.tasks[i].children.len();
                    let mut k: usize = 0;
                    proof {
                        assert(kids.subrange(0, 0) =~= Seq::<TaskId>::empty());
                        assert(out@ =~= old(out)@ + seq![id] + v.walk(
                            kids.subrange(0, 0),
                            (depth - 1) as nat,
                        ));
                    }
                    while k < n
                        invariant
                            distinct_ids(self.tasks@),
                            v == self@,
                            depth > 0,
                            i < self.tasks.len(),
                            kids == self.tasks@[i as int].children@,
                            n == kids.len(),
                            k <= n,
                            out@ == old(out)@ + seq![id] + v.walk(
                                kids.subrange(0, k as int),
                                (depth - 1) as nat,
                            ),
                        decreases n - k,
                    {
                        let child = self.tasks[i].children[k];
                        self.visit(child, depth - 1, out);
                        proof {
                            assert(kids.subrange(0, k + 1) =~= kids.subrange(0, k as int)
                                + seq![child]);
                            v.lemma_walk_concat(
                                kids.subrange(0, k as int),
                                seq![child],
                                (depth - 1) as nat,
                            );
                            assert(out@ =~= old(out)@ + seq![id] + v.walk(
                                kids.subrange(0, k + 1),
                                (depth - 1) as nat,
                            ));
                        }
                        k = k + 1;
                    }
                    proof {
                        assert(kids.subrange(0, n as int) =~= kids);
                        assert(out@ =~= old(out)@ + v.walk(seq![id], depth as nat));
                    }
                } else {
                    proof {
                        assert(v.walk(seq![id], depth as nat) =~= seq![id]);
                    }
                }
            },
        }
    }
}

} // verus!
