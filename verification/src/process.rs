//! The registry of external processes that run beside the application.
use vstd::prelude::*;

verus! {

/// A process that was started detached: the identifier under which the
/// system knows it, and the command that started it.
pub struct TrackedProcess {
    pub id: u32,
    pub command: String,
}

/// The mathematical value of a [`TrackedProcess`].
pub struct TrackedProcessView {
    pub id: u32,
    pub command: Seq<char>,
}

impl View for TrackedProcess {
    type V = TrackedProcessView;

    open spec fn view(&self) -> TrackedProcessView {
        TrackedProcessView { id: self.id, command: self.command@ }
    }
}

/// The values of a sequence of tracked processes, in order.
pub open spec fn processes_view(processes: Seq<TrackedProcess>) -> Seq<TrackedProcessView> {
    processes.map_values(|p: TrackedProcess| p@)
}

/// The identifiers of a sequence of tracked processes, in order.
pub open spec fn process_ids(processes: Seq<TrackedProcessView>) -> Seq<u32> {
    processes.map_values(|p: TrackedProcessView| p.id)
}

/// The processes that are still running when those in `exited` have ended.
pub open spec fn still_running(
    processes: Seq<TrackedProcessView>,
    exited: Seq<u32>,
) -> Seq<TrackedProcessView> {
    processes.filter(|p: TrackedProcessView| !exited.contains(p.id))
}

/// The processes that have ended, given that those in `exited` have.
pub open spec fn completed(
    processes: Seq<TrackedProcessView>,
    exited: Seq<u32>,
) -> Seq<TrackedProcessView> {
    processes.filter(|p: TrackedProcessView| exited.contains(p.id))
}

/// Tells whether a process with identifier `id` is among `processes`.
pub open spec fn is_tracked(processes: Seq<TrackedProcessView>, id: u32) -> bool {
    exists|i: int| 0 <= i < processes.len() && (#[trigger] processes[i]).id == id
}

/// The processes that were started detached and have not been seen to end.
pub struct ProcessRegistry {
    children: Vec<TrackedProcess>,
}

impl View for ProcessRegistry {
    type V = Seq<TrackedProcessView>;

    closed spec fn view(&self) -> Seq<TrackedProcessView> {
        processes_view(self.children@)
    }
}

/// Tells whether `id` is among `ids`.
pub fn contains_id(ids: &Vec<u32>, id: u32) -> (found: bool)
    ensures
        found == ids@.contains(id),
{
    let mut i: usize = 0;
    while i < ids.len()
        invariant
            i <= ids.len(),
            forall|j: int| 0 <= j < i ==> ids@[j] != id,
        decreases ids.len() - i,
    {
        if ids[i] == id {
            return true;
        }
        i += 1;
    }
    false
}

impl ProcessRegistry {
    /// A registry that tracks nothing.
    pub fn new() -> (registry: Self)
        ensures
            registry@ == Seq::<TrackedProcessView>::empty(),
    {
        let registry = ProcessRegistry { children: Vec::new() };
        proof {
            assert(registry@ =~= Seq::<TrackedProcessView>::empty());
        }
        registry
    }

    /// Takes a freshly started process into the registry, behind those it
    /// tracks already.
    pub fn track(&mut self, id: u32, command: String)
        ensures
            final(self)@ == old(self)@.push(TrackedProcessView { id, command: command@ }),
            is_tracked(final(self)@, id),
    {
        self.children.push(TrackedProcess { id, command });
        proof {
            let after = self@;
            assert(after =~= old(self)@.push(TrackedProcessView { id, command: command@ }));
            assert(after[after.len() - 1].id == id);
        }
    }

    /// How many processes are tracked.
    pub fn len(&self) -> (n: usize)
        ensures
            n == self@.len(),
    {
        self.children.len()
    }

    /// The identifiers of the tracked processes, in the order in which they
    /// were started.
    pub fn ids(&self) -> (ids: Vec<u32>)
        ensures
            ids@ == process_ids(self@),
    {
        let mut ids: Vec<u32> = Vec::new();
        let mut i: usize = 0;
        while i < self.children.len()
            invariant
                i <= self.children.len(),
                ids@ == process_ids(self@).take(i as int),
            decreases self.children.len() - i,
        {
            ids.push(self.children[i].id);
            proof {
                assert(ids@ =~= process_ids(self@).take(i + 1));
            }
            i += 1;
        }
        proof {
            assert(process_ids(self@).take(i as int) =~= process_ids(self@));
        }
        ids
    }

    /// Lets go of the processes whose identifiers are in `exited` and hands
    /// them out; the others stay, in their order.
    pub fn sweep(&mut self, exited: &Vec<u32>) -> (completions: Vec<TrackedProcess>)
        ensures
            final(self)@ == still_running(old(self)@, exited@),
            processes_view(completions@) == completed(old(self)@, exited@),
    {
        let ghost all = self@;
        let ghost stays = |p: TrackedProcessView| !exited@.contains(p.id);
        let ghost goes = |p: TrackedProcessView| exited@.contains(p.id);
        let mut remaining = Vec::new();
        std::mem::swap(&mut self.children, &mut remaining);
        let mut keep: Vec<TrackedProcess> = Vec::new();
        let mut completions: Vec<TrackedProcess> = Vec::new();
        let total = remaining.len();
        let mut n: usize = 0;
        proof {
            assert(all.take(0) =~= Seq::<TrackedProcessView>::empty());
            assert(processes_view(keep@) =~= Seq::<TrackedProcessView>::empty());
            assert(processes_view(completions@) =~= Seq::<TrackedProcessView>::empty());
            assert(processes_view(remaining@) =~= all.skip(0));
        }
        while remaining.len() > 0
            invariant
                n + remaining.len() == total,
                total == all.len(),
                stays == (|p: TrackedProcessView| !exited@.contains(p.id)),
                goes == (|p: TrackedProcessView| exited@.contains(p.id)),
                processes_view(remaining@) == all.skip(n as int),
                processes_view(keep@) == all.take(n as int).filter(stays),
                processes_view(completions@) == all.take(n as int).filter(goes),
            decreases remaining.len(),
        {
            let ghost keep_before = processes_view(keep@);
            let ghost completions_before = processes_view(completions@);
            let ghost remaining_before = processes_view(remaining@);
            let child = remaining.remove(0);
            proof {
                assert(child@ == remaining_before[0]);
                assert(child@ == all[n as int]);
                assert(processes_view(remaining@) =~= remaining_before.remove(0));
                assert(remaining_before.remove(0) =~= all.skip(n + 1));
                assert(all.take(n + 1) =~= all.take(n as int).push(child@));
                all.take(n as int).lemma_filter_push(child@, stays);
                all.take(n as int).lemma_filter_push(child@, goes);
            }
            if contains_id(exited, child.id) {
                completions.push(child);
                proof {
                    assert(processes_view(completions@) =~= completions_before.push(child@));
                }
            } else {
                keep.push(child);
                proof {
                    assert(processes_view(keep@) =~= keep_before.push(child@));
                }
            }
            n += 1;
        }
        proof {
            assert(all.take(n as int) =~= all);
        }
        self.children = keep;
        completions
    }
}

/// A process that is tracked and has not ended stays tracked over a sweep;
/// one that has ended is tracked no longer, and a sweep never adds one.
pub proof fn lemma_sweep_membership(processes: Seq<TrackedProcessView>, exited: Seq<u32>, id: u32)
    ensures
        is_tracked(still_running(processes, exited), id) <==> is_tracked(processes, id)
            && !exited.contains(id),
        still_running(processes, exited).len() <= processes.len(),
{
    let stays = |p: TrackedProcessView| !exited.contains(p.id);
    let after = still_running(processes, exited);
    processes.lemma_filter_len(stays);
    if is_tracked(after, id) {
        let i = choose|i: int| 0 <= i < after.len() && (#[trigger] after[i]).id == id;
        processes.lemma_filter_pred(stays, i);
        assert(after.contains(after[i]));
        processes.lemma_filter_contains_rev(stays, after[i]);
        let j = choose|j: int| 0 <= j < processes.len() && processes[j] == after[i];
        assert(processes[j].id == id);
    }
    if is_tracked(processes, id) && !exited.contains(id) {
        let j = choose|j: int| 0 <= j < processes.len() && (#[trigger] processes[j]).id == id;
        assert(stays(processes[j]));
        processes.lemma_filter_contains(stays, j);
        let i = choose|i: int| 0 <= i < after.len() && after[i] == processes[j];
        assert(after[i].id == id);
    }
}

} // verus!
