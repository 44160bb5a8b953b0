//! The power domain tree: the CPU power domains, and the non-CPU power domains (clusters, the
//! system) above them, with the power state of each.

use super::abi::{AffinityInfo, EntryPoint};
use super::PlatformPowerStateInterface;
use vstd::prelude::*;

verus! {

/// A non-CPU power domain node in the power domain tree.
pub struct NonCpuPowerNode<S> {
    /// Parent node index, or None if it is a top level node.
    parent: Option<usize>,
    /// Local power state of the node.
    local_state: S,
    /// First descendant CPU index.
    cpu_start: usize,
    /// One past the last descendant CPU index.
    cpu_end: usize,
    /// Requested power state of each descendant CPU node, from `cpu_start` on.
    requested_states: Vec<S>,
}

/// The contents of a non-CPU power domain node.
pub struct NonCpuNodeView<S> {
    /// Parent node index, or None for a top level node.
    pub parent: Option<usize>,
    /// Local power state of the node.
    pub local_state: S,
    /// First descendant CPU index.
    pub cpu_start: nat,
    /// One past the last descendant CPU index.
    pub cpu_end: nat,
    /// Requested power state of each descendant CPU node, from `cpu_start` on.
    pub requested_states: Seq<S>,
}

impl<S> NonCpuNodeView<S> {
    /// The node keeps one requested state per descendant CPU.
    pub open spec fn wf(self) -> bool {
        &&& self.cpu_start <= self.cpu_end
        &&& self.requested_states.len() == self.cpu_end - self.cpu_start
    }

    /// Whether `cpu_index` is a descendant CPU of the node.
    pub open spec fn has_cpu(self, cpu_index: int) -> bool {
        self.cpu_start <= cpu_index < self.cpu_end
    }

    /// The requested power state of a descendant CPU.
    pub open spec fn requested(self, cpu_index: int) -> S {
        self.requested_states[cpu_index - self.cpu_start]
    }
}

impl<S> View for NonCpuPowerNode<S> {
    type V = NonCpuNodeView<S>;

    closed spec fn view(&self) -> NonCpuNodeView<S> {
        NonCpuNodeView {
            parent: self.parent,
            local_state: self.local_state,
            cpu_start: self.cpu_start as nat,
            cpu_end: self.cpu_end as nat,
            requested_states: self.requested_states@,
        }
    }
}

impl<S: PlatformPowerStateInterface> NonCpuPowerNode<S> {
    /// Creates a node with the given parent node index, off, with no descendant CPU.
    pub fn new(parent: Option<usize>) -> (r: Self)
        ensures
            r@ == (NonCpuNodeView {
                parent,
                local_state: S::spec_off(),
                cpu_start: 0,
                cpu_end: 0,
                requested_states: Seq::<S>::empty(),
            }),
    {
        NonCpuPowerNode {
            parent,
            local_state: S::off(),
            cpu_start: 0,
            cpu_end: 0,
            requested_states: Vec::new(),
        }
    }

    /// Returns the parent node index, or None for a top level node.
    pub fn parent(&self) -> (r: Option<usize>)
        ensures
            r == self@.parent,
    {
        self.parent
    }

    /// Returns the range of descendant CPU indices, as its start and end.
    pub fn cpu_range(&self) -> (r: (usize, usize))
        ensures
            r.0 == self@.cpu_start,
            r.1 == self@.cpu_end,
    {
        (self.cpu_start, self.cpu_end)
    }

    /// Returns the requested power states of the descendant CPUs, in CPU index order.
    pub fn requested_states(&self) -> (r: Vec<S>)
        ensures
            r@ == self@.requested_states,
    {
        let mut out: Vec<S> = Vec::new();
        let mut i: usize = 0;
        while i < self.requested_states.len()
            invariant
                i <= self.requested_states@.len(),
                out@ == self.requested_states@.subrange(0, i as int),
            decreases self.requested_states@.len() - i,
        {
            out.push(self.requested_states[i]);
            i = i + 1;
        }
        assert(self.requested_states@.subrange(0, i as int) =~= self.requested_states@);
        out
    }

    /// Assigns the next descendant CPU: the CPU right after the current range, or the first one
    /// if the range is empty. Its requested state is off.
    pub fn assign_cpu(&mut self, cpu_index: usize)
        requires
            old(self)@.wf(),
            old(self)@.cpu_start == old(self)@.cpu_end || old(self)@.cpu_end == cpu_index,
            cpu_index < usize::MAX,
        ensures
            final(self)@ == (NonCpuNodeView {
                cpu_start: if old(self)@.cpu_start == old(self)@.cpu_end {
                    cpu_index as nat
                } else {
                    old(self)@.cpu_start
                },
                cpu_end: (cpu_index + 1) as nat,
                requested_states: old(self)@.requested_states.push(S::spec_off()),
                ..old(self)@
            }),
    {
        if self.cpu_start == self.cpu_end {
            self.cpu_start = cpu_index;
            self.cpu_end = cpu_index + 1;
        } else {
            self.cpu_end = self.cpu_end + 1;
        }
        self.requested_states.push(S::off());
    }

    /// Stores the requested power state of a descendant CPU node.
    pub fn set_requested_power_state(&mut self, cpu_index: usize, state: S)
        requires
            old(self)@.wf(),
            old(self)@.has_cpu(cpu_index as int),
        ensures
            final(self)@ == (NonCpuNodeView {
                requested_states: old(self)@.requested_states.update(
                    cpu_index - old(self)@.cpu_start,
                    state,
                ),
                ..old(self)@
            }),
    {
        let i = cpu_index - self.cpu_start;
        self.requested_states.set(i, state);
    }

    /// Sets the local power state of the node to the lowest possible level while still meeting
    /// the power requirements of its descendant CPU nodes: the shallowest requested state.
    pub fn set_minimal_allowed_state(&mut self)
        requires
            old(self)@.wf(),
            old(self)@.cpu_start < old(self)@.cpu_end,
        ensures
            final(self)@ == (NonCpuNodeView {
                local_state: minimal_state(old(self)@.requested_states),
                ..old(self)@
            }),
    {
        let mut min = self.requested_states[0];
        let mut i: usize = 1;
        while i < self.requested_states.len()
            invariant
                1 <= i <= self.requested_states@.len(),
                min == minimal_state(self.requested_states@.subrange(0, i as int)),
            decreases self.requested_states@.len() - i,
        {
            let candidate = self.requested_states[i];
            proof {
                let next = self.requested_states@.subrange(0, i + 1);
                assert(next.drop_last() =~= self.requested_states@.subrange(0, i as int));
            }
            if candidate.depth() < min.depth() {
                min = candidate;
            }
            i = i + 1;
        }
        proof {
            assert(self.requested_states@.subrange(0, i as int) =~= self.requested_states@);
        }
        self.local_state = min;
    }

    /// Returns the local power state of the node.
    pub fn local_state(&self) -> (r: S)
        ensures
            r == self@.local_state,
    {
        self.local_state
    }

    /// Sets the local power state of the node.
    pub fn set_local_state(&mut self, local_state: S)
        ensures
            final(self)@ == (NonCpuNodeView { local_state, ..old(self)@ }),
    {
        self.local_state = local_state;
    }
}

/// The shallowest of `states`, the first one if several are equally shallow.
pub open spec fn minimal_state<S: PlatformPowerStateInterface>(states: Seq<S>) -> S
    decreases states.len(),
{
    if states.len() <= 1 {
        states[0]
    } else {
        let m = minimal_state(states.drop_last());
        if states.last().spec_depth() < m.spec_depth() {
            states.last()
        } else {
            m
        }
    }
}

/// The shallowest of a non-empty sequence of states is one of them, and no other is shallower.
pub proof fn lemma_minimal_state<S: PlatformPowerStateInterface>(states: Seq<S>)
    requires
        states.len() > 0,
    ensures
        is_minimal_state(minimal_state(states), states),
    decreases states.len(),
{
    if states.len() > 1 {
        lemma_minimal_state(states.drop_last());
        let m = minimal_state(states.drop_last());
        assert forall|k: int| 0 <= k < states.len() implies minimal_state(states).spec_depth() <= #[trigger] states[k].spec_depth() by {
            if k < states.len() - 1 {
                assert(states.drop_last()[k] == states[k]);
            }
        }
        if !(states.last().spec_depth() < m.spec_depth()) {
            assert(states.drop_last().contains(m));
            let j = choose|j: int| 0 <= j < states.drop_last().len() && states.drop_last()[j] == m;
            assert(states[j] == m);
        }
    }
}

/// Whether `state` is one of `states` that no other of them is shallower than.
pub open spec fn is_minimal_state<S: PlatformPowerStateInterface>(state: S, states: Seq<S>) -> bool {
    &&& states.contains(state)
    &&& forall|k: int| 0 <= k < states.len() ==> state.spec_depth() <= #[trigger] states[k].spec_depth()
}

/// A CPU power domain node in the power domain tree.
#[derive(Clone, Copy)]
pub struct CpuPowerNode<S> {
    /// Parent non-CPU power node index.
    parent: usize,
    /// Current affinity info of the CPU.
    affinity_info: AffinityInfo,
    /// Highest power level which is affected while in suspend state.
    highest_affected_level: Option<usize>,
    /// Local power state of the CPU node.
    local_state: S,
    /// Non-secure entry point of the CPU on waking up.
    entry_point: Option<EntryPoint>,
}

/// The contents of a CPU power domain node.
pub struct CpuNodeView<S> {
    /// Parent non-CPU power node index.
    pub parent: usize,
    /// Current affinity info of the CPU.
    pub affinity_info: AffinityInfo,
    /// Highest power level which is affected while in suspend state.
    pub highest_affected_level: Option<usize>,
    /// Local power state of the CPU node.
    pub local_state: S,
    /// Non-secure entry point of the CPU on waking up.
    pub entry_point: Option<EntryPoint>,
}

impl<S> View for CpuPowerNode<S> {
    type V = CpuNodeView<S>;

    closed spec fn view(&self) -> CpuNodeView<S> {
        CpuNodeView {
            parent: self.parent,
            affinity_info: self.affinity_info,
            highest_affected_level: self.highest_affected_level,
            local_state: self.local_state,
            entry_point: self.entry_point,
        }
    }
}

impl<S: PlatformPowerStateInterface> CpuPowerNode<S> {
    /// Creates an off CPU node with the given parent node index.
    pub fn new(parent: usize) -> (r: Self)
        ensures
            r@ == (CpuNodeView {
                parent,
                affinity_info: AffinityInfo::Off,
                highest_affected_level: None,
                local_state: S::spec_off(),
                entry_point: None,
            }),
    {
        CpuPowerNode {
            parent,
            affinity_info: AffinityInfo::Off,
            highest_affected_level: None,
            local_state: S::off(),
            entry_point: None,
        }
    }

    /// Returns the parent non-CPU power node index.
    pub fn parent(&self) -> (r: usize)
        ensures
            r == self@.parent,
    {
        self.parent
    }

    /// Returns the affinity info of the CPU.
    pub fn affinity_info(&self) -> (r: AffinityInfo)
        ensures
            r == self@.affinity_info,
    {
        self.affinity_info
    }

    /// Sets the affinity info of the CPU.
    pub fn set_affinity_info(&mut self, affinity_info: AffinityInfo)
        ensures
            final(self)@ == (CpuNodeView { affinity_info, ..old(self)@ }),
    {
        self.affinity_info = affinity_info;
    }

    /// Returns the highest affected power level for suspend coordination.
    pub fn highest_affected_level(&self) -> (r: Option<usize>)
        ensures
            r == self@.highest_affected_level,
    {
        self.highest_affected_level
    }

    /// Sets the highest affected power level.
    pub fn set_highest_affected_level(&mut self, highest_affected_level: usize)
        ensures
            final(self)@ == (CpuNodeView {
                highest_affected_level: Some(highest_affected_level),
                ..old(self)@
            }),
    {
        self.highest_affected_level = Some(highest_affected_level);
    }

    /// Clears the highest affected power level.
    pub fn clear_highest_affected_level(&mut self)
        ensures
            final(self)@ == (CpuNodeView { highest_affected_level: None, ..old(self)@ }),
    {
        self.highest_affected_level = None;
    }

    /// Returns the local state of the CPU.
    pub fn local_state(&self) -> (r: S)
        ensures
            r == self@.local_state,
    {
        self.local_state
    }

    /// Sets the local state of the CPU.
    pub fn set_local_state(&mut self, local_state: S)
        ensures
            final(self)@ == (CpuNodeView { local_state, ..old(self)@ }),
    {
        self.local_state = local_state;
    }

    /// Stores the non-secure entry point of the CPU; none may be stored already.
    pub fn set_entry_point(&mut self, entry_point: EntryPoint)
        requires
            old(self)@.entry_point is None,
        ensures
            final(self)@ == (CpuNodeView { entry_point: Some(entry_point), ..old(self)@ }),
    {
        self.entry_point = Some(entry_point);
    }

    /// Returns whether a non-secure entry point is stored.
    pub fn entry_point_is_some(&self) -> (r: bool)
        ensures
            r == self@.entry_point is Some,
    {
        self.entry_point.is_some()
    }

    /// Returns and clears the stored non-secure entry point of the CPU.
    pub fn pop_entry_point(&mut self) -> (r: Option<EntryPoint>)
        ensures
            r == old(self)@.entry_point,
            final(self)@ == (CpuNodeView { entry_point: None, ..old(self)@ }),
    {
        let r = self.entry_point;
        self.entry_point = None;
        r
    }
}

/// The power domain tree: the non-CPU power nodes, each with the index of its parent, and the CPU
/// power nodes, each with the index of its parent non-CPU node.
pub struct PowerDomainTree<S> {
    non_cpu_power_nodes: Vec<NonCpuPowerNode<S>>,
    cpu_power_nodes: Vec<CpuPowerNode<S>>,
    max_power_level: usize,
}

/// The contents of a power domain tree.
pub struct PowerDomainTreeView<S> {
    /// The non-CPU power nodes.
    pub nodes: Seq<NonCpuNodeView<S>>,
    /// The CPU power nodes.
    pub cpus: Seq<CpuNodeView<S>>,
    /// The highest power level of the system; the CPUs are at level 0.
    pub max_power_level: nat,
}

impl<S> PowerDomainTreeView<S> {
    /// The `k`-th ancestor of non-CPU node `n`: the node itself for 0, then its parent, and so
    /// on; None above the top level.
    pub open spec fn ancestor(self, n: int, k: nat) -> Option<int>
        decreases k,
    {
        if k == 0 {
            Some(n)
        } else {
            match self.nodes[n].parent {
                Some(p) => self.ancestor(p as int, (k - 1) as nat),
                None => None,
            }
        }
    }

    /// The `k`-th non-CPU ancestor of CPU `cpu`: its parent for 0, and so on upwards.
    pub open spec fn cpu_ancestor(self, cpu: int, k: nat) -> Option<int> {
        self.ancestor(self.cpus[cpu].parent as int, k)
    }

    /// The parent of every node comes before it, every CPU has at most `max_power_level`
    /// levels above it, and the CPU range of every node holds its descendant CPUs.
    pub open spec fn wf(self) -> bool {
        &&& 1 <= self.max_power_level < usize::MAX
        &&& self.cpus.len() < usize::MAX
        &&& forall|n: int| 0 <= n < self.nodes.len() ==> #[trigger] self.nodes[n].wf() && self.nodes[n].cpu_end <= self.cpus.len()
        &&& forall|n: int| 0 <= n < self.nodes.len() && #[trigger] self.nodes[n].parent is Some
            ==> self.nodes[n].parent->0 < n
        &&& forall|c: int| 0 <= c < self.cpus.len() ==> #[trigger] self.cpus[c].parent < self.nodes.len()
        &&& forall|c: int| 0 <= c < self.cpus.len() ==> #[trigger] self.cpu_ancestor(c, self.max_power_level) is None
        &&& forall|c: int, k: nat| 0 <= c < self.cpus.len() && #[trigger] self.cpu_ancestor(c, k) is Some
            ==> self.nodes[self.cpu_ancestor(c, k)->0].has_cpu(c)
    }

    /// The ancestors of CPU `cpu` from its parent up to level `max_level` counted from 0 at the
    /// parent, or up to the top level, whichever comes first.
    pub open spec fn is_ancestor_list(self, cpu: int, max_level: nat, list: Seq<usize>) -> bool {
        &&& list.len() <= max_level + 1
        &&& forall|k: int| 0 <= k < list.len() ==> self.cpu_ancestor(cpu, k as nat) == Some(#[trigger] list[k] as int)
        &&& list.len() == max_level + 1 || self.cpu_ancestor(cpu, list.len()) is None
    }
}

impl<S> View for PowerDomainTree<S> {
    type V = PowerDomainTreeView<S>;

    closed spec fn view(&self) -> PowerDomainTreeView<S> {
        PowerDomainTreeView {
            nodes: self.non_cpu_power_nodes@.map_values(|n: NonCpuPowerNode<S>| n@),
            cpus: self.cpu_power_nodes@.map_values(|c: CpuPowerNode<S>| c@),
            max_power_level: self.max_power_level as nat,
        }
    }
}

/// Once a chain of ancestors ends, it stays ended.
pub proof fn lemma_ancestor_ends<S>(t: PowerDomainTreeView<S>, n: int, k: nat, j: nat)
    requires
        t.ancestor(n, k) is None,
        k <= j,
    ensures
        t.ancestor(n, j) is None,
    decreases k,
{
    if k > 0 {
        match t.nodes[n].parent {
            Some(p) => lemma_ancestor_ends(t, p as int, (k - 1) as nat, (j - 1) as nat),
            None => {},
        }
    }
}

/// The `k + 1`-th ancestor is the parent of the `k`-th one.
pub proof fn lemma_ancestor_step<S>(t: PowerDomainTreeView<S>, n: int, k: nat)
    requires
        t.ancestor(n, k) is Some,
    ensures
        t.ancestor(n, k + 1) == (match t.nodes[t.ancestor(n, k)->0].parent {
            Some(p) => Some(p as int),
            None => None,
        }),
    decreases k,
{
    if k > 0 {
        match t.nodes[n].parent {
            Some(p) => lemma_ancestor_step(t, p as int, (k - 1) as nat),
            None => {},
        }
    } else {
        reveal_with_fuel(PowerDomainTreeView::ancestor, 2);
    }
}

/// The ancestors of a node of the tree are nodes of the tree.
pub proof fn lemma_ancestor_in_range<S>(t: PowerDomainTreeView<S>, n: int, k: nat)
    requires
        forall|m: int| 0 <= m < t.nodes.len() && #[trigger] t.nodes[m].parent is Some
            ==> t.nodes[m].parent->0 < t.nodes.len(),
        0 <= n < t.nodes.len(),
    ensures
        t.ancestor(n, k) matches Some(a) ==> 0 <= a < t.nodes.len(),
    decreases k,
{
    if k > 0 {
        match t.nodes[n].parent {
            Some(p) => lemma_ancestor_in_range(t, p as int, (k - 1) as nat),
            None => {},
        }
    }
}

/// Ancestors depend only on the parent links.
pub proof fn lemma_ancestor_same_links<S>(t: PowerDomainTreeView<S>, u: PowerDomainTreeView<S>, n: int, k: nat)
    requires
        t.nodes.len() == u.nodes.len(),
        forall|m: int| 0 <= m < t.nodes.len() ==> #[trigger] t.nodes[m].parent == u.nodes[m].parent,
        forall|m: int| 0 <= m < t.nodes.len() && #[trigger] t.nodes[m].parent is Some
            ==> t.nodes[m].parent->0 < t.nodes.len(),
        0 <= n < t.nodes.len(),
    ensures
        t.ancestor(n, k) == u.ancestor(n, k),
    decreases k,
{
    if k > 0 {
        match t.nodes[n].parent {
            Some(p) => lemma_ancestor_same_links(t, u, p as int, (k - 1) as nat),
            None => {},
        }
    }
}

/// The ancestors of a CPU depend only on the non-CPU nodes and the CPU's parent.
pub proof fn lemma_cpu_ancestor_same_nodes<S>(t: PowerDomainTreeView<S>, u: PowerDomainTreeView<S>, c: int, k: nat)
    requires
        t.wf(),
        u.nodes == t.nodes,
        0 <= c < t.cpus.len(),
        u.cpus[c].parent == t.cpus[c].parent,
    ensures
        u.cpu_ancestor(c, k) == t.cpu_ancestor(c, k),
{
    assert forall|m: int| 0 <= m < t.nodes.len() && #[trigger] t.nodes[m].parent is Some implies t.nodes[m].parent->0 < t.nodes.len() by {
        assert(t.nodes[m].parent->0 < m);
    }
    lemma_ancestor_same_links(t, u, t.cpus[c].parent as int, k);
}

/// Changes that keep the parent links and the CPU ranges of every node keep the tree well formed.
pub proof fn lemma_wf_same_shape<S>(t: PowerDomainTreeView<S>, u: PowerDomainTreeView<S>)
    requires
        t.wf(),
        t.nodes.len() == u.nodes.len(),
        t.cpus.len() == u.cpus.len(),
        t.max_power_level == u.max_power_level,
        forall|m: int| 0 <= m < t.nodes.len() ==> {
            &&& (#[trigger] u.nodes[m]).parent == t.nodes[m].parent
            &&& u.nodes[m].cpu_start == t.nodes[m].cpu_start
            &&& u.nodes[m].cpu_end == t.nodes[m].cpu_end
            &&& u.nodes[m].requested_states.len() == t.nodes[m].requested_states.len()
        },
        forall|c: int| 0 <= c < t.cpus.len() ==> (#[trigger] u.cpus[c]).parent == t.cpus[c].parent,
    ensures
        u.wf(),
{
    assert forall|n: int| 0 <= n < u.nodes.len() implies #[trigger] u.nodes[n].wf() && u.nodes[n].cpu_end <= u.cpus.len() by {
        assert(t.nodes[n].wf());
    }
    assert forall|n: int| 0 <= n < u.nodes.len() && #[trigger] u.nodes[n].parent is Some implies u.nodes[n].parent->0 < n by {
        assert(t.nodes[n].parent is Some);
    }
    assert forall|m: int| 0 <= m < t.nodes.len() && #[trigger] t.nodes[m].parent is Some implies t.nodes[m].parent->0 < t.nodes.len() by {
        assert(t.nodes[m].parent->0 < m);
    }
    assert forall|c: int| 0 <= c < u.cpus.len() implies #[trigger] u.cpus[c].parent < u.nodes.len() by {
        assert(t.cpus[c].parent < t.nodes.len());
    }
    assert forall|c: int| 0 <= c < u.cpus.len() implies #[trigger] u.cpu_ancestor(c, u.max_power_level) is None by {
        assert(t.cpus[c].parent < t.nodes.len());
        lemma_ancestor_same_links(t, u, t.cpus[c].parent as int, t.max_power_level);
        assert(t.cpu_ancestor(c, t.max_power_level) is None);
    }
    assert forall|c: int, k: nat| 0 <= c < u.cpus.len() && #[trigger] u.cpu_ancestor(c, k) is Some
        implies u.nodes[u.cpu_ancestor(c, k)->0].has_cpu(c) by {
        assert(t.cpus[c].parent < t.nodes.len());
        lemma_ancestor_same_links(t, u, t.cpus[c].parent as int, k);
        lemma_ancestor_in_range(t, t.cpus[c].parent as int, k);
        assert(t.cpu_ancestor(c, k) is Some);
        let a = t.cpu_ancestor(c, k)->0;
        assert(u.nodes[a].cpu_start == t.nodes[a].cpu_start);
    }
}

impl<S: PlatformPowerStateInterface> PowerDomainTree<S> {
    /// Returns the highest power level of the system.
    pub fn max_power_level(&self) -> (r: usize)
        ensures
            r == self@.max_power_level,
    {
        self.max_power_level
    }

    /// Returns the number of CPUs.
    pub fn cpu_count(&self) -> (r: usize)
        ensures
            r == self@.cpus.len(),
    {
        self.cpu_power_nodes.len()
    }

    /// Returns the number of non-CPU power nodes.
    pub fn non_cpu_count(&self) -> (r: usize)
        ensures
            r == self@.nodes.len(),
    {
        self.non_cpu_power_nodes.len()
    }

    /// Returns a CPU node by its index.
    pub fn cpu_node(&self, cpu_index: usize) -> (r: &CpuPowerNode<S>)
        requires
            cpu_index < self@.cpus.len(),
        ensures
            r@ == self@.cpus[cpu_index as int],
    {
        &self.cpu_power_nodes[cpu_index]
    }

    /// Returns a non-CPU node by its index.
    pub fn non_cpu_node(&self, index: usize) -> (r: &NonCpuPowerNode<S>)
        requires
            index < self@.nodes.len(),
        ensures
            r@ == self@.nodes[index as int],
    {
        &self.non_cpu_power_nodes[index]
    }

    /// Sets the affinity info of a CPU.
    pub fn set_cpu_affinity_info(&mut self, cpu_index: usize, affinity_info: AffinityInfo)
        requires
            old(self)@.wf(),
            cpu_index < old(self)@.cpus.len(),
        ensures
            final(self)@ == (PowerDomainTreeView {
                cpus: old(self)@.cpus.update(
                    cpu_index as int,
                    CpuNodeView { affinity_info, ..old(self)@.cpus[cpu_index as int] },
                ),
                ..old(self)@
            }),
            final(self)@.wf(),
    {
        self.cpu_power_nodes[cpu_index].set_affinity_info(affinity_info);
        proof { self.lemma_view_after_cpu_update(old(self), cpu_index) }
    }

    /// Sets the local power state of a CPU.
    pub fn set_cpu_local_state(&mut self, cpu_index: usize, local_state: S)
        requires
            old(self)@.wf(),
            cpu_index < old(self)@.cpus.len(),
        ensures
            final(self)@ == (PowerDomainTreeView {
                cpus: old(self)@.cpus.update(
                    cpu_index as int,
                    CpuNodeView { local_state, ..old(self)@.cpus[cpu_index as int] },
                ),
                ..old(self)@
            }),
            final(self)@.wf(),
    {
        self.cpu_power_nodes[cpu_index].set_local_state(local_state);
        proof { self.lemma_view_after_cpu_update(old(self), cpu_index) }
    }

    /// Stores the non-secure entry point of a CPU; none may be stored already.
    pub fn set_cpu_entry_point(&mut self, cpu_index: usize, entry_point: EntryPoint)
        requires
            old(self)@.wf(),
            cpu_index < old(self)@.cpus.len(),
            old(self)@.cpus[cpu_index as int].entry_point is None,
        ensures
            final(self)@ == (PowerDomainTreeView {
                cpus: old(self)@.cpus.update(
                    cpu_index as int,
                    CpuNodeView { entry_point: Some(entry_point), ..old(self)@.cpus[cpu_index as int] },
                ),
                ..old(self)@
            }),
            final(self)@.wf(),
    {
        self.cpu_power_nodes[cpu_index].set_entry_point(entry_point);
        proof { self.lemma_view_after_cpu_update(old(self), cpu_index) }
    }

    /// Returns and clears the stored non-secure entry point of a CPU.
    pub fn pop_cpu_entry_point(&mut self, cpu_index: usize) -> (r: Option<EntryPoint>)
        requires
            old(self)@.wf(),
            cpu_index < old(self)@.cpus.len(),
        ensures
            r == old(self)@.cpus[cpu_index as int].entry_point,
            final(self)@ == (PowerDomainTreeView {
                cpus: old(self)@.cpus.update(
                    cpu_index as int,
                    CpuNodeView { entry_point: None, ..old(self)@.cpus[cpu_index as int] },
                ),
                ..old(self)@
            }),
            final(self)@.wf(),
    {
        let r = self.cpu_power_nodes[cpu_index].pop_entry_point();
        proof { self.lemma_view_after_cpu_update(old(self), cpu_index) }
        r
    }

    /// Clears the highest affected power level of a CPU.
    pub fn clear_cpu_highest_affected_level(&mut self, cpu_index: usize)
        requires
            old(self)@.wf(),
            cpu_index < old(self)@.cpus.len(),
        ensures
            final(self)@ == (PowerDomainTreeView {
                cpus: old(self)@.cpus.update(
                    cpu_index as int,
                    CpuNodeView { highest_affected_level: None, ..old(self)@.cpus[cpu_index as int] },
                ),
                ..old(self)@
            }),
            final(self)@.wf(),
    {
        self.cpu_power_nodes[cpu_index].clear_highest_affected_level();
        proof { self.lemma_view_after_cpu_update(old(self), cpu_index) }
    }

    /// After a change of one CPU node that keeps its parent, the view is the old one with that
    /// CPU updated, and the tree stays well formed.
    proof fn lemma_view_after_cpu_update(&self, old_tree: &Self, cpu_index: usize)
        requires
            old_tree@.wf(),
            cpu_index < old_tree.cpu_power_nodes@.len(),
            self.non_cpu_power_nodes@ == old_tree.non_cpu_power_nodes@,
            self.max_power_level == old_tree.max_power_level,
            self.cpu_power_nodes@ == old_tree.cpu_power_nodes@.update(
                cpu_index as int,
                self.cpu_power_nodes@[cpu_index as int],
            ),
            self.cpu_power_nodes@[cpu_index as int]@.parent == old_tree.cpu_power_nodes@[cpu_index as int]@.parent,
        ensures
            self@ == (PowerDomainTreeView {
                cpus: old_tree@.cpus.update(cpu_index as int, self.cpu_power_nodes@[cpu_index as int]@),
                ..old_tree@
            }),
            self@.wf(),
    {
        assert(self@.cpus =~= old_tree@.cpus.update(cpu_index as int, self.cpu_power_nodes@[cpu_index as int]@));
        assert(self@.nodes =~= old_tree@.nodes);
        lemma_wf_same_shape(old_tree@, self@);
    }

    /// After a change of one non-CPU node that keeps its parent and CPU range, the view is the
    /// old one with that node updated, and the tree stays well formed.
    proof fn lemma_view_after_node_update(&self, old_tree: &Self, index: usize)
        requires
            old_tree@.wf(),
            index < old_tree.non_cpu_power_nodes@.len(),
            self.cpu_power_nodes@ == old_tree.cpu_power_nodes@,
            self.max_power_level == old_tree.max_power_level,
            self.non_cpu_power_nodes@ == old_tree.non_cpu_power_nodes@.update(
                index as int,
                self.non_cpu_power_nodes@[index as int],
            ),
            self.non_cpu_power_nodes@[index as int]@.parent == old_tree@.nodes[index as int].parent,
            self.non_cpu_power_nodes@[index as int]@.cpu_start == old_tree@.nodes[index as int].cpu_start,
            self.non_cpu_power_nodes@[index as int]@.cpu_end == old_tree@.nodes[index as int].cpu_end,
            self.non_cpu_power_nodes@[index as int]@.requested_states.len()
                == old_tree@.nodes[index as int].requested_states.len(),
        ensures
            self@ == (PowerDomainTreeView {
                nodes: old_tree@.nodes.update(index as int, self.non_cpu_power_nodes@[index as int]@),
                ..old_tree@
            }),
            self@.wf(),
    {
        assert(self@.nodes =~= old_tree@.nodes.update(index as int, self.non_cpu_power_nodes@[index as int]@));
        assert(self@.cpus =~= old_tree@.cpus);
        lemma_wf_same_shape(old_tree@, self@);
    }

    /// Stores the requested power state of a descendant CPU of a non-CPU node.
    pub fn set_requested_power_state(&mut self, index: usize, cpu_index: usize, state: S)
        requires
            old(self)@.wf(),
            index < old(self)@.nodes.len(),
            old(self)@.nodes[index as int].has_cpu(cpu_index as int),
        ensures
            final(self)@ == (PowerDomainTreeView {
                nodes: old(self)@.nodes.update(
                    index as int,
                    NonCpuNodeView {
                        requested_states: old(self)@.nodes[index as int].requested_states.update(
                            cpu_index - old(self)@.nodes[index as int].cpu_start,
                            state,
                        ),
                        ..old(self)@.nodes[index as int]
                    },
                ),
                ..old(self)@
            }),
            final(self)@.wf(),
    {
        proof { assert(old(self)@.nodes[index as int].wf()); }
        self.non_cpu_power_nodes[index].set_requested_power_state(cpu_index, state);
        proof { self.lemma_view_after_node_update(old(self), index) }
    }

    /// Sets the local state of a non-CPU node to the shallowest state its descendant CPUs
    /// request.
    pub fn set_minimal_allowed_state(&mut self, index: usize)
        requires
            old(self)@.wf(),
            index < old(self)@.nodes.len(),
            old(self)@.nodes[index as int].cpu_start < old(self)@.nodes[index as int].cpu_end,
        ensures
            final(self)@ == (PowerDomainTreeView {
                nodes: old(self)@.nodes.update(
                    index as int,
                    NonCpuNodeView {
                        local_state: minimal_state(old(self)@.nodes[index as int].requested_states),
                        ..old(self)@.nodes[index as int]
                    },
                ),
                ..old(self)@
            }),
            final(self)@.wf(),
    {
        proof { assert(old(self)@.nodes[index as int].wf()); }
        self.non_cpu_power_nodes[index].set_minimal_allowed_state();
        proof { self.lemma_view_after_node_update(old(self), index) }
    }

    /// Sets the local state of a non-CPU node.
    pub fn set_node_local_state(&mut self, index: usize, local_state: S)
        requires
            old(self)@.wf(),
            index < old(self)@.nodes.len(),
        ensures
            final(self)@ == (PowerDomainTreeView {
                nodes: old(self)@.nodes.update(
                    index as int,
                    NonCpuNodeView { local_state, ..old(self)@.nodes[index as int] },
                ),
                ..old(self)@
            }),
            final(self)@.wf(),
    {
        self.non_cpu_power_nodes[index].set_local_state(local_state);
        proof { self.lemma_view_after_node_update(old(self), index) }
    }

    /// Returns the ancestors of a CPU from its parent up to level `max_level`, counted from 0 at
    /// the parent, or up to the top level if that comes first, lowest level first.
    pub fn ancestors(&self, cpu_index: usize, max_level: usize) -> (r: Vec<usize>)
        requires
            self@.wf(),
            cpu_index < self@.cpus.len(),
        ensures
            self@.is_ancestor_list(cpu_index as int, max_level as nat, r@),
            r@.len() <= self@.max_power_level,
            forall|k: int| 0 <= k < r@.len() ==> #[trigger] r@[k] < self@.nodes.len(),
            forall|i: int, j: int| 0 <= i < j < r@.len() ==> #[trigger] r@[j] < #[trigger] r@[i],
    {
        let ghost t = self@;
        let ghost p = t.cpus[cpu_index as int].parent as int;
        let mut list: Vec<usize> = Vec::new();
        let _node_count = self.non_cpu_power_nodes.len();
        let mut next: Option<usize> = Some(self.cpu_power_nodes[cpu_index].parent());
        let mut level: usize = 0;
        while level <= max_level && next.is_some()
            invariant
                t == self@,
                t.wf(),
                t.nodes.len() <= usize::MAX,
                cpu_index < t.cpus.len(),
                p == t.cpus[cpu_index as int].parent,
                list@.len() == level,
                level <= max_level + 1,
                forall|k: int| 0 <= k < level ==> t.ancestor(p, k as nat) == Some(#[trigger] list@[k] as int),
                forall|k: int| 0 <= k < level ==> #[trigger] list@[k] < t.nodes.len(),
                forall|i: int, j: int| 0 <= i < j < level ==> #[trigger] list@[j] < #[trigger] list@[i],
                forall|k: int| 0 <= k < level ==> (next matches Some(n) ==> n < #[trigger] list@[k]),
                next == match t.ancestor(p, level as nat) {
                    Some(a) => Some(a as usize),
                    None => None::<usize>,
                },
                match t.ancestor(p, level as nat) {
                    Some(a) => 0 <= a < t.nodes.len(),
                    None => true,
                },
                level <= t.max_power_level,
            decreases max_level + 1 - level,
        {
            let index = next.unwrap();
            proof {
                lemma_ancestor_step(t, p, level as nat);
                lemma_ancestor_in_range(t, p, (level + 1) as nat);
                assert(t.ancestor(p, level as nat) == Some(index as int));
                assert(self.non_cpu_power_nodes@[index as int]@ == t.nodes[index as int]);
                if level == t.max_power_level {
                    assert(t.cpu_ancestor(cpu_index as int, t.max_power_level) is None);
                }
            }
            next = self.non_cpu_power_nodes[index].parent();
            proof {
                if next is Some {
                    assert(t.nodes[index as int].parent is Some);
                    assert(next->0 < index);
                }
            }
            list.push(index);
            level = level + 1;
            proof {
                if level > t.max_power_level {
                    assert(t.cpu_ancestor(cpu_index as int, t.max_power_level) is None);
                }
            }
        }
        list
    }

    /// Returns whether a given CPU, which is on, is the last CPU in the system which is powered
    /// on: all the other CPUs are off.
    pub fn is_last_cpu(&self, cpu_index: usize) -> (r: bool)
        requires
            cpu_index < self@.cpus.len(),
            self@.cpus[cpu_index as int].affinity_info == AffinityInfo::On,
        ensures
            r == forall|c: int| 0 <= c < self@.cpus.len() && c != cpu_index
                ==> #[trigger] self@.cpus[c].affinity_info == AffinityInfo::Off,
    {
        let mut i: usize = 0;
        while i < self.cpu_power_nodes.len()
            invariant
                i <= self@.cpus.len(),
                forall|c: int| 0 <= c < i && c != cpu_index ==> #[trigger] self@.cpus[c].affinity_info == AffinityInfo::Off,
            decreases self@.cpus.len() - i,
        {
            assert(self@.cpus[i as int] == self.cpu_power_nodes@[i as int]@);
            if i != cpu_index && self.cpu_power_nodes[i].affinity_info() != AffinityInfo::Off {
                return false;
            }
            i = i + 1;
        }
        true
    }

    /// Returns whether all CPUs are on.
    pub fn are_all_cpus_on(&self) -> (r: bool)
        ensures
            r == forall|c: int| 0 <= c < self@.cpus.len() ==> #[trigger] self@.cpus[c].affinity_info == AffinityInfo::On,
    {
        let mut i: usize = 0;
        while i < self.cpu_power_nodes.len()
            invariant
                i <= self@.cpus.len(),
                forall|c: int| 0 <= c < i ==> #[trigger] self@.cpus[c].affinity_info == AffinityInfo::On,
            decreases self@.cpus.len() - i,
        {
            assert(self@.cpus[i as int] == self.cpu_power_nodes@[i as int]@);
            if self.cpu_power_nodes[i].affinity_info() != AffinityInfo::On {
                return false;
            }
            i = i + 1;
        }
        true
    }
}


/// The tree view of the given nodes.
pub open spec fn view_of<S>(nodes: Seq<NonCpuPowerNode<S>>, cpus: Seq<CpuPowerNode<S>>, max_power_level: nat) -> PowerDomainTreeView<S> {
    PowerDomainTreeView {
        nodes: nodes.map_values(|n: NonCpuPowerNode<S>| n@),
        cpus: cpus.map_values(|c: CpuPowerNode<S>| c@),
        max_power_level,
    }
}

/// What holds of a tree under construction whose first `assigned` CPUs are assigned to their
/// ancestors: parents come before their children, and every assigned CPU has at most
/// `max_power_level` ancestors, each of whose CPU ranges holds it.
pub open spec fn partly_built<S>(t: PowerDomainTreeView<S>, assigned: nat) -> bool {
    &&& 1 <= t.max_power_level < usize::MAX
    &&& assigned <= t.cpus.len() < usize::MAX
    &&& forall|n: int| 0 <= n < t.nodes.len() ==> #[trigger] t.nodes[n].wf() && t.nodes[n].cpu_end <= assigned
    &&& forall|n: int| 0 <= n < t.nodes.len() && #[trigger] t.nodes[n].parent is Some ==> t.nodes[n].parent->0 < n
    &&& forall|c: int| 0 <= c < t.cpus.len() ==> #[trigger] t.cpus[c].parent < t.nodes.len()
    &&& forall|c: int| 0 <= c < assigned ==> #[trigger] t.cpu_ancestor(c, t.max_power_level) is None
    &&& forall|c: int, k: nat| 0 <= c < assigned && #[trigger] t.cpu_ancestor(c, k) is Some
        ==> t.nodes[t.cpu_ancestor(c, k)->0].has_cpu(c)
}

#[verifier::spinoff_prover]
/// A tree whose CPUs are all assigned is well formed.
pub proof fn lemma_built_wf<S>(t: PowerDomainTreeView<S>)
    requires
        partly_built(t, t.cpus.len()),
    ensures
        t.wf(),
{
    assert forall|n: int| 0 <= n < t.nodes.len() implies #[trigger] t.nodes[n].wf() && t.nodes[n].cpu_end
        <= t.cpus.len() by {
        let nn = t.nodes[n];
        assert(nn.wf());
        assert(nn.cpu_end <= t.cpus.len());
    }
    assert forall|c: int| 0 <= c < t.cpus.len() implies #[trigger] t.cpu_ancestor(c, t.max_power_level) is None by {}
    assert forall|c: int, k: nat| 0 <= c < t.cpus.len() && #[trigger] t.cpu_ancestor(c, k) is Some
        implies t.nodes[t.cpu_ancestor(c, k)->0].has_cpu(c) by {}
}

impl<S: PlatformPowerStateInterface> PowerDomainTree<S> {
    /// Assigns CPU `cpu_index`, the last CPU, to its parent node `parent_index` and each of the
    /// parent's ancestors. Fails if an ancestor's CPU range does not end right before the CPU,
    /// or if the CPU has more than `max_power_level` ancestors.
    fn assign_cpu(
        nodes: &mut Vec<NonCpuPowerNode<S>>,
        cpus: &Vec<CpuPowerNode<S>>,
        parent_index: usize,
        cpu_index: usize,
        max_power_level: usize,
    ) -> (ok: bool)
        requires
            partly_built(view_of(old(nodes)@, cpus@, max_power_level as nat), cpu_index as nat),
            cpu_index + 1 == cpus@.len(),
            cpus@[cpu_index as int]@.parent == parent_index,
        ensures
            ok ==> partly_built(view_of(final(nodes)@, cpus@, max_power_level as nat), (cpu_index + 1) as nat),
            final(nodes)@.len() == old(nodes)@.len(),
            forall|n: int| 0 <= n < old(nodes)@.len() ==> (#[trigger] final(nodes)@[n])@.local_state == old(nodes)@[n]@.local_state
                && final(nodes)@[n]@.parent == old(nodes)@[n]@.parent,
    {
        let ghost t0 = view_of(nodes@, cpus@, max_power_level as nat);
        let ghost c = cpu_index as int;
        let mut cur: usize = parent_index;
        let mut level: usize = 0;
        loop
            invariant_except_break
                c == cpu_index as int,
                t0 == view_of(old(nodes)@, cpus@, max_power_level as nat),
                partly_built(t0, cpu_index as nat),
                cpu_index + 1 == cpus@.len(),
                cpus@[cpu_index as int]@.parent == parent_index,
                nodes@.len() == t0.nodes.len(),
                level < max_power_level,
                t0.cpu_ancestor(c, level as nat) == Some(cur as int),
                0 <= cur < t0.nodes.len(),
                forall|k: nat| k < level ==> (#[trigger] t0.cpu_ancestor(c, k) matches Some(a) && cur < a < t0.nodes.len()
                    && assigned_node(t0.nodes[a], nodes@[a]@, c)),
                forall|n: int| 0 <= n < t0.nodes.len() && (forall|k: nat| k < level ==> #[trigger] t0.cpu_ancestor(c, k) != Some(n))
                    ==> (#[trigger] nodes@[n])@ == t0.nodes[n],
            ensures
                partly_built(view_of(nodes@, cpus@, max_power_level as nat), (cpu_index + 1) as nat),
                nodes@.len() == t0.nodes.len(),
                forall|n: int| 0 <= n < t0.nodes.len() ==> (#[trigger] nodes@[n])@.local_state == t0.nodes[n].local_state
                    && nodes@[n]@.parent == t0.nodes[n].parent,
            decreases max_power_level - level,
        {
            proof {
                assert forall|k: nat| k < level implies #[trigger] t0.cpu_ancestor(c, k) != Some(cur as int) by {
                    assert(t0.cpu_ancestor(c, k) matches Some(a) && cur < a);
                }
                assert(nodes@[cur as int]@ == t0.nodes[cur as int]);
                assert(t0.nodes[cur as int].wf());
            }
            let (start, end) = nodes[cur].cpu_range();
            if !(start == end || end == cpu_index) {
                proof { Self::lemma_local_states_kept(t0, nodes@, c, level as nat) }
                return false;
            }
            let ghost before = nodes@[cur as int]@;
            nodes[cur].assign_cpu(cpu_index);
            proof {
                assert(before == t0.nodes[cur as int]);
                assert(assigned_node(t0.nodes[cur as int], nodes@[cur as int]@, c));
                assert forall|k: nat| k <= level implies (#[trigger] t0.cpu_ancestor(c, k) matches Some(a) && cur <= a < t0.nodes.len()
                    && assigned_node(t0.nodes[a], nodes@[a]@, c)) by {
                    if k < level {
                        assert(t0.cpu_ancestor(c, k) matches Some(a) && cur < a);
                    }
                }
                assert forall|n: int| 0 <= n < t0.nodes.len() && (forall|k: nat| k <= level ==> #[trigger] t0.cpu_ancestor(c, k) != Some(n))
                    implies (#[trigger] nodes@[n])@ == t0.nodes[n] by {
                    assert(t0.cpu_ancestor(c, level as nat) != Some(n));
                }
                lemma_ancestor_step(t0, t0.cpus[c].parent as int, level as nat);
            }
            match nodes[cur].parent() {
                None => {
                    proof { Self::lemma_assigned_chain(t0, nodes@, c, level as nat) }
                    break;
                },
                Some(parent) => {
                    if level + 1 >= max_power_level {
                        proof { Self::lemma_local_states_kept(t0, nodes@, c, (level + 1) as nat) }
                        return false;
                    }
                    proof {
                        assert(t0.nodes[cur as int].parent == Some(parent));
                        assert(parent < cur);
                    }
                    cur = parent;
                    level = level + 1;
                },
            }
        }
        true
    }

    /// The nodes off the first `level` ancestors of CPU `c` are unchanged, and those on them
    /// keep their local state.
    proof fn lemma_local_states_kept(t0: PowerDomainTreeView<S>, nodes: Seq<NonCpuPowerNode<S>>, c: int, level: nat)
        requires
            nodes.len() == t0.nodes.len(),
            forall|k: nat| k < level ==> (#[trigger] t0.cpu_ancestor(c, k) matches Some(a) && 0 <= a < t0.nodes.len()
                && assigned_node(t0.nodes[a], nodes[a]@, c)),
            forall|n: int| 0 <= n < t0.nodes.len() && (forall|k: nat| k < level ==> #[trigger] t0.cpu_ancestor(c, k) != Some(n))
                ==> (#[trigger] nodes[n])@ == t0.nodes[n],
        ensures
            forall|n: int| 0 <= n < t0.nodes.len() ==> (#[trigger] nodes[n])@.local_state == t0.nodes[n].local_state
                && nodes[n]@.parent == t0.nodes[n].parent,
    {
        assert forall|n: int| 0 <= n < t0.nodes.len() implies (#[trigger] nodes[n])@.local_state == t0.nodes[n].local_state
            && nodes[n]@.parent == t0.nodes[n].parent by {
            if exists|k: nat| k < level && #[trigger] t0.cpu_ancestor(c, k) == Some(n) {
                let k = choose|k: nat| k < level && #[trigger] t0.cpu_ancestor(c, k) == Some(n);
                assert(t0.cpu_ancestor(c, k) matches Some(a) && assigned_node(t0.nodes[a], nodes[a]@, c));
            }
        }
    }

    /// Once CPU `c` is assigned to all of its `level + 1` ancestors, the tree holds one more
    /// assigned CPU.
    proof fn lemma_assigned_chain(t0: PowerDomainTreeView<S>, nodes: Seq<NonCpuPowerNode<S>>, c: int, level: nat)
        requires
            partly_built(t0, c as nat),
            c + 1 == t0.cpus.len(),
            nodes.len() == t0.nodes.len(),
            level < t0.max_power_level,
            t0.cpu_ancestor(c, level + 1) is None,
            forall|k: nat| k <= level ==> (#[trigger] t0.cpu_ancestor(c, k) matches Some(a) && 0 <= a < t0.nodes.len()
                && assigned_node(t0.nodes[a], nodes[a]@, c)),
            forall|n: int| 0 <= n < t0.nodes.len() && (forall|k: nat| k <= level ==> #[trigger] t0.cpu_ancestor(c, k) != Some(n))
                ==> (#[trigger] nodes[n])@ == t0.nodes[n],
        ensures
            partly_built(PowerDomainTreeView { nodes: nodes.map_values(|n: NonCpuPowerNode<S>| n@), ..t0 }, (c + 1) as nat),
            forall|n: int| 0 <= n < t0.nodes.len() ==> (#[trigger] nodes[n])@.local_state == t0.nodes[n].local_state
                && nodes[n]@.parent == t0.nodes[n].parent,
    {
        let t1 = PowerDomainTreeView { nodes: nodes.map_values(|n: NonCpuPowerNode<S>| n@), ..t0 };
        Self::lemma_local_states_kept(t0, nodes, c, level + 1);
        // Every node is either on the chain, and assigned, or unchanged.
        assert forall|n: int| 0 <= n < t1.nodes.len() implies {
            &&& t1.nodes[n].parent == t0.nodes[n].parent
            &&& t1.nodes[n].wf()
            &&& t1.nodes[n].cpu_end <= c + 1
            &&& (t0.nodes[n].cpu_start < t0.nodes[n].cpu_end ==> t1.nodes[n].cpu_start == t0.nodes[n].cpu_start
                && t0.nodes[n].cpu_end <= t1.nodes[n].cpu_end)
        } by {
            assert(t0.nodes[n].wf());
            if exists|k: nat| k <= level && #[trigger] t0.cpu_ancestor(c, k) == Some(n) {
                let k = choose|k: nat| k <= level && #[trigger] t0.cpu_ancestor(c, k) == Some(n);
                assert(t0.cpu_ancestor(c, k) matches Some(a) && assigned_node(t0.nodes[a], nodes[a]@, c));
            }
        }
        assert forall|m: int| 0 <= m < t0.nodes.len() implies #[trigger] t0.nodes[m].parent == t1.nodes[m].parent by {}
        assert forall|m: int| 0 <= m < t0.nodes.len() && #[trigger] t0.nodes[m].parent is Some implies t0.nodes[m].parent->0 < t0.nodes.len() by {
            assert(t0.nodes[m].wf());
        }
        assert forall|cc: int| 0 <= cc < c + 1 implies #[trigger] t1.cpu_ancestor(cc, t1.max_power_level) is None by {
            assert(t0.cpus[cc].parent < t0.nodes.len());
            lemma_ancestor_same_links(t0, t1, t0.cpus[cc].parent as int, t0.max_power_level);
            if cc == c {
                lemma_ancestor_ends(t0, t0.cpus[c].parent as int, level + 1, t0.max_power_level);
                assert(t0.cpu_ancestor(c, t0.max_power_level) is None);
            } else {
                assert(t0.cpu_ancestor(cc, t0.max_power_level) is None);
            }
            assert(t1.cpus[cc].parent == t0.cpus[cc].parent);
        }
        assert forall|cc: int, k: nat| 0 <= cc < c + 1 && #[trigger] t1.cpu_ancestor(cc, k) is Some
            implies t1.nodes[t1.cpu_ancestor(cc, k)->0].has_cpu(cc) by {
            assert(t0.cpus[cc].parent < t0.nodes.len());
            lemma_ancestor_same_links(t0, t1, t0.cpus[cc].parent as int, k);
            lemma_ancestor_in_range(t0, t0.cpus[cc].parent as int, k);
            let a = t0.cpu_ancestor(cc, k)->0;
            if cc == c {
                if k > level {
                    lemma_ancestor_ends(t0, t0.cpus[c].parent as int, level + 1, k);
                }
                assert(t0.cpu_ancestor(c, k) matches Some(a) && assigned_node(t0.nodes[a], nodes[a]@, c));
            } else {
                assert(t0.nodes[a].has_cpu(cc));
            }
        }
    }
}

/// Node `after` is node `before` with CPU `c` assigned to it, right after its CPU range.
pub open spec fn assigned_node<S>(before: NonCpuNodeView<S>, after: NonCpuNodeView<S>, c: int) -> bool {
    &&& after.parent == before.parent
    &&& after.local_state == before.local_state
    &&& after.cpu_end == c + 1
    &&& after.cpu_start == (if before.cpu_start == before.cpu_end { c } else { before.cpu_start as int })
    &&& after.requested_states.len() == before.requested_states.len() + 1
    &&& before.wf()
    &&& (before.cpu_start == before.cpu_end || before.cpu_end == c)
}

/// A node that is just created: off, with no CPU.
pub open spec fn fresh_node<S: PlatformPowerStateInterface>(n: NonCpuNodeView<S>) -> bool {
    &&& n.local_state == S::spec_off()
    &&& n.cpu_start == 0
    &&& n.cpu_end == 0
    &&& n.requested_states.len() == 0
}

/// A CPU that is just created: off, with no entry point.
pub open spec fn fresh_cpu<S: PlatformPowerStateInterface>(c: CpuNodeView<S>) -> bool {
    &&& c.affinity_info == AffinityInfo::Off
    &&& c.highest_affected_level is None
    &&& c.local_state == S::spec_off()
    &&& c.entry_point is None
}

/// The sum of the topology entries `from..to`.
pub open spec fn topology_sum(topology: Seq<usize>, from: int, to: int) -> int
    decreases to - from,
{
    if to <= from {
        0
    } else {
        topology_sum(topology, from, to - 1) + topology[to - 1]
    }
}

/// After the top `levels` levels of non-CPU nodes of a topology: the number of entries that
/// they take, one per node of the level above (one for the whole system at first), and the
/// number of nodes of the level below them.
pub open spec fn topology_levels(topology: Seq<usize>, levels: nat) -> (int, int)
    decreases levels,
{
    if levels == 0 {
        (0, 1)
    } else {
        let above = topology_levels(topology, (levels - 1) as nat);
        (above.0 + above.1, topology_sum(topology, above.0, above.0 + above.1))
    }
}

/// The parents of the nodes that the topology entries `from..to` describe, in order: entry `e`
/// stands for `topology[e]` children of node `e - 1`, where `-1` stands for no parent.
pub open spec fn topology_parents(topology: Seq<usize>, from: int, to: int) -> Seq<int>
    decreases to - from,
{
    if to <= from {
        Seq::empty()
    } else {
        topology_parents(topology, from, to - 1) + Seq::new(topology[to - 1] as nat, |i: int| to - 2)
    }
}

/// A parent link as an index, `-1` standing for no parent.
pub open spec fn parent_code(parent: Option<usize>) -> int {
    match parent {
        Some(p) => p as int,
        None => -1,
    }
}

/// The tree has the shape that the topology describes with `max_power_level` levels of non-CPU
/// nodes: the entries of those levels give the parents of the non-CPU nodes, and the entries
/// after them the parents of the CPUs.
pub open spec fn has_topology<S>(t: PowerDomainTreeView<S>, topology: Seq<usize>) -> bool {
    let e = topology_levels(topology, t.max_power_level).0;
    let node_parents = topology_parents(topology, 0, e);
    let cpu_parents = topology_parents(topology, e, topology.len() as int);
    &&& t.nodes.len() == node_parents.len()
    &&& forall|n: int| 0 <= n < t.nodes.len() ==> parent_code(#[trigger] t.nodes[n].parent) == node_parents[n]
    &&& t.cpus.len() == cpu_parents.len()
    &&& forall|c: int| 0 <= c < t.cpus.len() ==> (#[trigger] t.cpus[c]).parent as int == cpu_parents[c]
}

impl<S: PlatformPowerStateInterface> PowerDomainTree<S> {
    /// Creates the power domain tree from the topology: the count of child nodes of each node in
    /// a breadth-first traversal, the count of top level nodes first. Level by level from the
    /// top, each entry gives the number of children of the next node of the level above; after
    /// `max_power_level` levels of non-CPU nodes the remaining entries give the number of CPUs of
    /// each node of the lowest level. All nodes are off. `None` where the topology describes no
    /// such tree: it ends early, a node would come before its parent, a CPU would have more than
    /// `max_power_level` ancestors, or the CPUs of a node would not be consecutive.
    pub fn new(topology: &[usize], max_power_level: usize) -> (r: Option<Self>)
        ensures
            r matches Some(tree) ==> {
                &&& tree@.wf()
                &&& tree@.max_power_level == max_power_level
                &&& has_topology(tree@, topology@)
                &&& forall|n: int| 0 <= n < tree@.nodes.len() ==> #[trigger] tree@.nodes[n].local_state == S::spec_off()
                &&& forall|c: int| 0 <= c < tree@.cpus.len() ==> fresh_cpu(#[trigger] tree@.cpus[c])
            },
    {
        if max_power_level == 0 || max_power_level == usize::MAX {
            return None;
        }
        let ghost top = topology@;
        let mut nodes: Vec<NonCpuPowerNode<S>> = Vec::new();
        let mut node_count: usize = 1;
        let mut parent_node_index: usize = 0;
        let mut parent_node: Option<usize> = None;
        let mut level: usize = 0;
        while level < max_power_level
            invariant
                top == topology@,
                level <= max_power_level,
                topology_levels(top, level as nat) == (parent_node_index as int, node_count as int),
                parent_node_index <= top.len(),
                parent_code(parent_node) == parent_node_index - 1,
                nodes@.len() == topology_parents(top, 0, parent_node_index as int).len(),
                forall|n: int| 0 <= n < nodes@.len() ==> parent_code((#[trigger] nodes@[n])@.parent)
                    == topology_parents(top, 0, parent_node_index as int)[n],
                forall|n: int| 0 <= n < nodes@.len() ==> fresh_node(#[trigger] nodes@[n]@),
                forall|n: int| 0 <= n < nodes@.len() && #[trigger] nodes@[n]@.parent is Some ==> nodes@[n]@.parent->0 < n,
            decreases max_power_level - level,
        {
            let ghost start = parent_node_index as int;
            let mut next_level_node_count: usize = 0;
            let mut i: usize = 0;
            while i < node_count
                invariant
                    top == topology@,
                    i <= node_count,
                    parent_node_index == start + i,
                    parent_node_index <= top.len(),
                    next_level_node_count == topology_sum(top, start, parent_node_index as int),
                    parent_code(parent_node) == parent_node_index - 1,
                    nodes@.len() == topology_parents(top, 0, parent_node_index as int).len(),
                    forall|n: int| 0 <= n < nodes@.len() ==> parent_code((#[trigger] nodes@[n])@.parent)
                        == topology_parents(top, 0, parent_node_index as int)[n],
                    forall|n: int| 0 <= n < nodes@.len() ==> fresh_node(#[trigger] nodes@[n]@),
                    forall|n: int| 0 <= n < nodes@.len() && #[trigger] nodes@[n]@.parent is Some ==> nodes@[n]@.parent->0 < n,
                decreases node_count - i,
            {
                if parent_node_index >= topology.len() {
                    return None;
                }
                let child_count = topology[parent_node_index];
                let ghost before = topology_parents(top, 0, parent_node_index as int);
                let ghost code = parent_node_index - 1;
                let mut k: usize = 0;
                while k < child_count
                    invariant
                        k <= child_count,
                        parent_code(parent_node) == code,
                        nodes@.len() == before.len() + k,
                        forall|n: int| 0 <= n < before.len() ==> parent_code((#[trigger] nodes@[n])@.parent) == before[n],
                        forall|n: int| before.len() <= n < nodes@.len() ==> parent_code((#[trigger] nodes@[n])@.parent) == code,
                        forall|n: int| 0 <= n < nodes@.len() ==> fresh_node(#[trigger] nodes@[n]@),
                        forall|n: int| 0 <= n < nodes@.len() && #[trigger] nodes@[n]@.parent is Some ==> nodes@[n]@.parent->0 < n,
                    decreases child_count - k,
                {
                    if let Some(q) = parent_node {
                        if q >= nodes.len() {
                            return None;
                        }
                    }
                    nodes.push(NonCpuPowerNode::new(parent_node));
                    k = k + 1;
                }
                proof {
                    let after = topology_parents(top, 0, parent_node_index + 1);
                    assert(after == before + Seq::new(child_count as nat, |j: int| code));
                    assert forall|n: int| 0 <= n < nodes@.len() implies parent_code((#[trigger] nodes@[n])@.parent)
                        == after[n] by {
                        if n >= before.len() {
                            assert(after[n] == code);
                        }
                    }
                }
                parent_node = Some(parent_node_index);
                if next_level_node_count > usize::MAX - child_count {
                    return None;
                }
                next_level_node_count = next_level_node_count + child_count;
                parent_node_index = parent_node_index + 1;
                i = i + 1;
            }
            node_count = next_level_node_count;
            level = level + 1;
        }

        let ghost levels_end = parent_node_index as int;
        let mut cpus: Vec<CpuPowerNode<S>> = Vec::new();
        proof {
            let t = view_of(nodes@, cpus@, max_power_level as nat);
            assert forall|n: int| 0 <= n < t.nodes.len() implies #[trigger] t.nodes[n].wf() && t.nodes[n].cpu_end <= 0 by {
                assert(fresh_node(nodes@[n]@));
            }
            assert forall|n: int| 0 <= n < t.nodes.len() && #[trigger] t.nodes[n].parent is Some implies t.nodes[n].parent->0 < n by {
                assert(nodes@[n]@ == t.nodes[n]);
            }
        }
        let mut entry: usize = parent_node_index;
        while entry < topology.len()
            invariant
                top == topology@,
                levels_end <= entry <= top.len(),
                partly_built(view_of(nodes@, cpus@, max_power_level as nat), cpus@.len()),
                nodes@.len() == topology_parents(top, 0, levels_end).len(),
                forall|n: int| 0 <= n < nodes@.len() ==> parent_code((#[trigger] nodes@[n])@.parent)
                    == topology_parents(top, 0, levels_end)[n],
                cpus@.len() == topology_parents(top, levels_end, entry as int).len(),
                forall|c: int| 0 <= c < cpus@.len() ==> (#[trigger] cpus@[c])@.parent as int
                    == topology_parents(top, levels_end, entry as int)[c],
                forall|n: int| 0 <= n < nodes@.len() ==> (#[trigger] nodes@[n])@.local_state == S::spec_off(),
                forall|c: int| 0 <= c < cpus@.len() ==> fresh_cpu(#[trigger] cpus@[c]@),
            decreases topology@.len() - entry,
        {
            let num_children = topology[entry];
            if entry == 0 || entry - 1 >= nodes.len() {
                return None;
            }
            let parent = entry - 1;
            let ghost before = topology_parents(top, levels_end, entry as int);
            let ghost node_parents = topology_parents(top, 0, levels_end);
            let mut k: usize = 0;
            while k < num_children
                invariant
                    0 <= parent < nodes@.len(),
                    k <= num_children,
                    partly_built(view_of(nodes@, cpus@, max_power_level as nat), cpus@.len()),
                    nodes@.len() == node_parents.len(),
                    forall|n: int| 0 <= n < nodes@.len() ==> parent_code((#[trigger] nodes@[n])@.parent) == node_parents[n],
                    cpus@.len() == before.len() + k,
                    forall|c: int| 0 <= c < before.len() ==> (#[trigger] cpus@[c])@.parent as int == before[c],
                    forall|c: int| before.len() <= c < cpus@.len() ==> (#[trigger] cpus@[c])@.parent == parent,
                    forall|n: int| 0 <= n < nodes@.len() ==> (#[trigger] nodes@[n])@.local_state == S::spec_off(),
                    forall|c: int| 0 <= c < cpus@.len() ==> fresh_cpu(#[trigger] cpus@[c]@),
                decreases num_children - k,
            {
                let cpu_index = cpus.len();
                if cpu_index >= usize::MAX - 1 {
                    return None;
                }
                let ghost t_before = view_of(nodes@, cpus@, max_power_level as nat);
                cpus.push(CpuPowerNode::new(parent));
                proof { lemma_push_cpu(t_before, view_of(nodes@, cpus@, max_power_level as nat)) }
                let ghost nodes_before = nodes@;
                if !Self::assign_cpu(&mut nodes, &cpus, parent, cpu_index, max_power_level) {
                    return None;
                }
                proof {
                    assert forall|n: int| 0 <= n < nodes@.len() implies parent_code((#[trigger] nodes@[n])@.parent)
                        == node_parents[n] by {
                        assert(nodes@[n]@.parent == nodes_before[n]@.parent);
                    }
                    assert forall|n: int| 0 <= n < nodes@.len() implies (#[trigger] nodes@[n])@.local_state
                        == S::spec_off() by {
                        assert(nodes@[n]@.local_state == nodes_before[n]@.local_state);
                    }
                }
                k = k + 1;
            }
            proof {
                let after = topology_parents(top, levels_end, entry + 1);
                assert(after == before + Seq::new(num_children as nat, |j: int| entry - 1));
                assert forall|c: int| 0 <= c < cpus@.len() implies (#[trigger] cpus@[c])@.parent as int == after[c] by {
                    if c >= before.len() {
                        assert(after[c] == entry - 1);
                    }
                }
            }
            entry = entry + 1;
        }
        let tree = PowerDomainTree { non_cpu_power_nodes: nodes, cpu_power_nodes: cpus, max_power_level };
        proof {
            lemma_built_wf(tree@);
            assert(tree@ == view_of(nodes@, cpus@, max_power_level as nat));
            assert forall|n: int| 0 <= n < tree@.nodes.len() implies parent_code(#[trigger] tree@.nodes[n].parent)
                == topology_parents(top, 0, levels_end)[n] by {
                assert(tree@.nodes[n] == nodes@[n]@);
            }
            assert forall|c: int| 0 <= c < tree@.cpus.len() implies (#[trigger] tree@.cpus[c]).parent as int
                == topology_parents(top, levels_end, top.len() as int)[c] by {
                assert(tree@.cpus[c] == cpus@[c]@);
            }
        }
        Some(tree)
    }
}


/// Adding an unassigned CPU to a partly built tree keeps it partly built.
proof fn lemma_push_cpu<S>(t: PowerDomainTreeView<S>, u: PowerDomainTreeView<S>)
    requires
        partly_built(t, t.cpus.len()),
        u.nodes == t.nodes,
        u.max_power_level == t.max_power_level,
        u.cpus.len() == t.cpus.len() + 1,
        u.cpus.len() < usize::MAX,
        forall|c: int| 0 <= c < t.cpus.len() ==> #[trigger] u.cpus[c] == t.cpus[c],
        u.cpus[t.cpus.len() as int].parent < u.nodes.len(),
    ensures
        partly_built(u, t.cpus.len()),
{
    assert forall|c: int| 0 <= c < u.cpus.len() implies #[trigger] u.cpus[c].parent < u.nodes.len() by {
        if c < t.cpus.len() {
            assert(u.cpus[c] == t.cpus[c]);
        }
    }
    assert forall|m: int| 0 <= m < t.nodes.len() && #[trigger] t.nodes[m].parent is Some implies t.nodes[m].parent->0 < t.nodes.len() by {
        assert(t.nodes[m].wf());
    }
    assert forall|c: int| 0 <= c < t.cpus.len() implies #[trigger] u.cpu_ancestor(c, u.max_power_level) is None by {
        assert(u.cpus[c] == t.cpus[c]);
        assert(t.cpus[c].parent < t.nodes.len());
        lemma_ancestor_same_links(t, u, t.cpus[c].parent as int, t.max_power_level);
        assert(t.cpu_ancestor(c, t.max_power_level) is None);
    }
    assert forall|c: int, k: nat| 0 <= c < t.cpus.len() && #[trigger] u.cpu_ancestor(c, k) is Some
        implies u.nodes[u.cpu_ancestor(c, k)->0].has_cpu(c) by {
        assert(u.cpus[c] == t.cpus[c]);
        assert(t.cpus[c].parent < t.nodes.len());
        lemma_ancestor_same_links(t, u, t.cpus[c].parent as int, k);
        assert(t.cpu_ancestor(c, k) is Some);
    }
}

} // verus!
