//! Power State Coordination Interface (Arm DEN 0022): the power state of each power domain of the
//! system, and the handling of the PSCI calls that change it.

pub mod abi;
pub mod power_domain_tree;

use self::abi::{
    decode_call, AffinityInfo, Cookie, EntryPoint, ErrorCode, HwState, MemProtectRange, Mpidr,
    PowerState, PsciCall, PsciFeature, ResetType, SuspendMode, SystemOff2Type,
};
use self::power_domain_tree::{
    minimal_state, CpuNodeView, NonCpuNodeView, PowerDomainTree, PowerDomainTreeView,
};
use crate::platform::{Platform, MPIDR_MT, MPIDR_U};
use crate::services::function_in_range;
use crate::smccc::{i32_reg, FunctionId, SmcReturn, OEN_STANDARD_SECURE};
use vstd::prelude::*;

verus! {

/// The type of a platform-specific power state.
#[derive(Clone, Copy, Debug, Eq, PartialEq, Structural)]
pub enum PowerStateType {
    /// The domain is powered down.
    PowerDown,
    /// The domain is in standby or retention.
    StandbyOrRetention,
    /// The domain is running.
    Run,
}

/// The rank of a power state type, from running to powered down.
pub open spec fn type_rank(t: PowerStateType) -> nat {
    match t {
        PowerStateType::Run => 0,
        PowerStateType::StandbyOrRetention => 1,
        PowerStateType::PowerDown => 2,
    }
}

/// Platform-specific power state.
///
/// The platform provides a power state type which implements this trait. Its states are ordered
/// by their depth, ascending from the running state to the power down states, and a deeper state
/// never has a shallower type than a state above it.
pub trait PlatformPowerStateInterface: Sized + Copy {
    /// The position of the state in the order of the states, from running to power down.
    spec fn spec_depth(&self) -> nat;

    /// The type of the state.
    spec fn spec_type(&self) -> PowerStateType;

    /// The state in which a domain is off.
    spec fn spec_off() -> Self;

    /// The state in which a domain runs.
    spec fn spec_run() -> Self;

    /// The laws of the order of the states: it tells the states apart, it follows the order of
    /// their types, running is the shallowest state and off is a power down state.
    proof fn lemma_power_state_order(a: Self, b: Self)
        ensures
            a.spec_depth() == b.spec_depth() ==> a == b,
            type_rank(a.spec_type()) < type_rank(b.spec_type()) ==> a.spec_depth() < b.spec_depth(),
            Self::spec_run().spec_type() == PowerStateType::Run,
            Self::spec_run().spec_depth() <= a.spec_depth(),
            Self::spec_off().spec_type() == PowerStateType::PowerDown,
    ;

    /// Returns the state in which a domain is off.
    fn off() -> (r: Self)
        ensures
            r == Self::spec_off(),
    ;

    /// Returns the state in which a domain runs.
    fn run() -> (r: Self)
        ensures
            r == Self::spec_run(),
    ;

    /// Returns the type of the platform-specific power state.
    fn power_state_type(&self) -> (r: PowerStateType)
        ensures
            r == self.spec_type(),
    ;

    /// Returns the position of the state in the order of the states, from running to power down.
    fn depth(&self) -> (r: usize)
        ensures
            r == self.spec_depth(),
    ;
}

/// The highest index of `states` whose state is not a running state.
pub open spec fn highest_non_run<S: PlatformPowerStateInterface>(states: Seq<S>) -> Option<int>
    decreases states.len(),
{
    if states.len() == 0 {
        None
    } else if states.last().spec_type() != PowerStateType::Run {
        Some(states.len() - 1)
    } else {
        highest_non_run(states.drop_last())
    }
}

/// The highest non-running level is a level of the states.
proof fn lemma_highest_non_run_bounds<S: PlatformPowerStateInterface>(states: Seq<S>)
    ensures
        highest_non_run(states) matches Some(i) ==> 0 <= i < states.len(),
    decreases states.len(),
{
    if states.len() > 0 && states.last().spec_type() == PowerStateType::Run {
        lemma_highest_non_run_bounds(states.drop_last());
    }
}

/// The highest index of `states` whose state is a power down state.
pub open spec fn highest_power_down<S: PlatformPowerStateInterface>(states: Seq<S>) -> Option<int>
    decreases states.len(),
{
    if states.len() == 0 {
        None
    } else if states.last().spec_type() == PowerStateType::PowerDown {
        Some(states.len() - 1)
    } else {
        highest_power_down(states.drop_last())
    }
}

/// Whether the levels of `states` go from deeper to shallower states, or equal ones, upwards.
pub open spec fn is_non_increasing<S: PlatformPowerStateInterface>(states: Seq<S>) -> bool {
    forall|i: int, j: int| 0 <= i <= j < states.len() ==> #[trigger] states[i].spec_depth() >= #[trigger] states[j].spec_depth()
}

/// Whether a suspend to `states` keeps the PSCI rules: some level is not running, no level is in
/// a deeper state than the level below it, and some level powers down if and only if the request
/// is for a power down state.
pub open spec fn is_valid_suspend<S: PlatformPowerStateInterface>(states: Seq<S>, is_power_down_state: bool) -> bool {
    &&& highest_non_run(states) is Some
    &&& is_non_increasing(states)
    &&& (highest_power_down(states) is Some <==> is_power_down_state)
}

/// The platform-specific power state of each power level, the CPU level first.
pub struct PsciCompositePowerState<S> {
    /// The state of each power level.
    pub states: Vec<S>,
}

/// The power level of the CPUs.
pub const CPU_POWER_LEVEL: usize = 0;

impl<S: PlatformPowerStateInterface> PsciCompositePowerState<S> {
    /// Creates a composite state from the state of each level.
    pub fn new(states: Vec<S>) -> (r: Self)
        ensures
            r.states@ == states@,
    {
        PsciCompositePowerState { states }
    }

    /// States set to off on all levels up to `max_power_level`.
    pub fn off(max_power_level: usize) -> (r: Self)
        requires
            max_power_level < usize::MAX,
        ensures
            r.states@ == Seq::new((max_power_level + 1) as nat, |i: int| S::spec_off()),
    {
        Self::filled(S::off(), max_power_level)
    }

    /// States set to running on all levels up to `max_power_level`.
    pub fn run(max_power_level: usize) -> (r: Self)
        requires
            max_power_level < usize::MAX,
        ensures
            r.states@ == Seq::new((max_power_level + 1) as nat, |i: int| S::spec_run()),
    {
        Self::filled(S::run(), max_power_level)
    }

    /// The same state on all levels up to `max_power_level`.
    fn filled(state: S, max_power_level: usize) -> (r: Self)
        requires
            max_power_level < usize::MAX,
        ensures
            r.states@ == Seq::new((max_power_level + 1) as nat, |i: int| state),
    {
        let mut states: Vec<S> = Vec::new();
        let mut i: usize = 0;
        while i <= max_power_level
            invariant
                max_power_level < usize::MAX,
                i <= max_power_level + 1,
                states@ == Seq::new(i as nat, |k: int| state),
            decreases max_power_level + 1 - i,
        {
            states.push(state);
            i = i + 1;
            proof { assert(states@ =~= Seq::new(i as nat, |k: int| state)); }
        }
        PsciCompositePowerState { states }
    }

    /// Returns the power state of the CPU level.
    pub fn cpu_level_state(&self) -> (r: S)
        requires
            self.states@.len() > 0,
        ensures
            r == self.states@[0],
    {
        self.states[CPU_POWER_LEVEL]
    }

    /// Returns the power state of the highest level.
    pub fn highest_level_state(&self) -> (r: S)
        requires
            self.states@.len() > 0,
        ensures
            r == self.states@.last(),
    {
        self.states[self.states.len() - 1]
    }

    /// Finds the highest power level which is not set to a running state.
    pub fn find_highest_non_run_level(&self) -> (r: Option<usize>)
        ensures
            r == match highest_non_run(self.states@) {
                Some(i) => Some(i as usize),
                None => None::<usize>,
            },
            r matches Some(i) ==> i < self.states@.len(),
    {
        let mut i: usize = self.states.len();
        assert(self.states@.subrange(0, i as int) =~= self.states@);
        while i > 0
            invariant
                i <= self.states@.len(),
                highest_non_run(self.states@) == highest_non_run(self.states@.subrange(0, i as int)),
            decreases i,
        {
            let s = self.states[i - 1];
            proof {
                let prefix = self.states@.subrange(0, i as int);
                assert(prefix.drop_last() =~= self.states@.subrange(0, i - 1));
            }
            if s.power_state_type() != PowerStateType::Run {
                return Some(i - 1);
            }
            i = i - 1;
        }
        None
    }

    /// Finds the highest power level which is set to a power down state.
    pub fn find_highest_power_down_level(&self) -> (r: Option<usize>)
        ensures
            r == match highest_power_down(self.states@) {
                Some(i) => Some(i as usize),
                None => None::<usize>,
            },
            r matches Some(i) ==> i < self.states@.len(),
    {
        let mut i: usize = self.states.len();
        assert(self.states@.subrange(0, i as int) =~= self.states@);
        while i > 0
            invariant
                i <= self.states@.len(),
                highest_power_down(self.states@) == highest_power_down(self.states@.subrange(0, i as int)),
            decreases i,
        {
            let s = self.states[i - 1];
            proof {
                let prefix = self.states@.subrange(0, i as int);
                assert(prefix.drop_last() =~= self.states@.subrange(0, i - 1));
            }
            if s.power_state_type() == PowerStateType::PowerDown {
                return Some(i - 1);
            }
            i = i - 1;
        }
        None
    }

    /// Checks that the composite state does not violate any PSCI rule for a suspend to it: some
    /// level is not running, no level is deeper than the one below it, and a level powers down
    /// if and only if `is_power_down_state`.
    pub fn is_valid_suspend_request(&self, is_power_down_state: bool) -> (r: bool)
        ensures
            r == is_valid_suspend(self.states@, is_power_down_state),
    {
        if self.find_highest_non_run_level().is_none() {
            return false;
        }
        let mut i: usize = 1;
        while i < self.states.len()
            invariant
                1 <= i,
                i <= self.states@.len() || self.states@.len() == 0,
                is_non_increasing(self.states@.subrange(0, i as int)) || self.states@.len() == 0,
            decreases self.states@.len() - i,
        {
            if self.states[i - 1].depth() < self.states[i].depth() {
                proof {
                    let sub = self.states@.subrange(0, i + 1);
                    assert(sub[i - 1] == self.states@[i - 1] && sub[i as int] == self.states@[i as int]);
                    assert(!is_non_increasing(self.states@));
                }
                return false;
            }
            proof {
                let prev = self.states@.subrange(0, i as int);
                let next = self.states@.subrange(0, i + 1);
                assert forall|a: int, b: int| 0 <= a <= b < next.len() implies #[trigger] next[a].spec_depth() >= #[trigger] next[b].spec_depth() by {
                    if b < i {
                        assert(prev[a] == next[a] && prev[b] == next[b]);
                    } else if a < i {
                        assert(prev[a] == next[a] && prev[i - 1] == next[i - 1]);
                    }
                }
            }
            i = i + 1;
        }
        proof {
            if self.states@.len() > 0 {
                assert(self.states@.subrange(0, self.states@.len() as int) =~= self.states@);
            }
        }
        if is_power_down_state {
            self.find_highest_power_down_level().is_some()
        } else {
            self.find_highest_power_down_level().is_none()
        }
    }
}

/// The requested states of non-CPU node `a` once CPU `c` requests `state` from it.
pub open spec fn requested_after<S>(t: PowerDomainTreeView<S>, a: int, c: int, state: S) -> Seq<S> {
    t.nodes[a].requested_states.update(c - t.nodes[a].cpu_start, state)
}

/// The lowest of the levels `k..z` of the ancestor list whose node can go no deeper than a
/// running state once CPU `c` requests the states `states` from the ancestors; `z` if none.
pub open spec fn first_run_level<S: PlatformPowerStateInterface>(
    t: PowerDomainTreeView<S>,
    states: Seq<S>,
    ancestors: Seq<usize>,
    c: int,
    k: int,
    z: int,
) -> int
    decreases z - k,
{
    if k >= z {
        z
    } else if minimal_state(requested_after(t, ancestors[k] as int, c, states[k + 1])).spec_type() == PowerStateType::Run {
        k
    } else {
        first_run_level(t, states, ancestors, c, k + 1, z)
    }
}

/// The first running level at or above `k` lies between `k` and `z`.
pub proof fn lemma_first_run_level_bounds<S: PlatformPowerStateInterface>(
    t: PowerDomainTreeView<S>,
    states: Seq<S>,
    ancestors: Seq<usize>,
    c: int,
    k: int,
    z: int,
)
    requires
        k <= z,
    ensures
        k <= first_run_level(t, states, ancestors, c, k, z) <= z,
    decreases z - k,
{
    if k < z {
        lemma_first_run_level_bounds(t, states, ancestors, c, k + 1, z);
    }
}

/// The number of ancestor levels that a composite state of `len` levels covers with a list of
/// `count` ancestors.
pub open spec fn covered_levels(count: int, len: int) -> int {
    if count < len - 1 { count } else { len - 1 }
}

/// The composite state with every one of its `n` levels off.
pub open spec fn all_off<S: PlatformPowerStateInterface>(n: nat) -> Seq<S> {
    Seq::new(n, |i: int| S::spec_off())
}

/// What coordinating a composite state `s0` over the ancestors `a` of CPU `c` makes of the tree
/// `t0` and of the state: the tree `t1` and the coordinated state `s1`. Going up the ancestors,
/// the CPU requests the state of each level from the node of that level; the node takes the
/// shallowest state requested from it, and the state takes that state for the level. Once a node
/// has to stay running, the levels above it are set to running, and their nodes keep their local
/// state.
pub open spec fn coordinated<S: PlatformPowerStateInterface>(
    t0: PowerDomainTreeView<S>,
    s0: Seq<S>,
    a: Seq<usize>,
    c: int,
    t1: PowerDomainTreeView<S>,
    s1: Seq<S>,
) -> bool {
    let z = covered_levels(a.len() as int, s0.len() as int);
    let r = first_run_level(t0, s0, a, c, 0, z);
    &&& t1.wf()
    &&& t1.cpus == t0.cpus
    &&& t1.max_power_level == t0.max_power_level
    &&& t1.nodes.len() == t0.nodes.len()
    &&& s1.len() == s0.len()
    &&& s1[0] == s0[0]
    &&& forall|j: int| z < j < s0.len() ==> #[trigger] s1[j] == s0[j]
    &&& forall|k: int| 0 <= k < z ==> #[trigger] t1.nodes[a[k] as int] == (NonCpuNodeView {
        requested_states: requested_after(t0, a[k] as int, c, s0[k + 1]),
        local_state: if k <= r {
            minimal_state(requested_after(t0, a[k] as int, c, s0[k + 1]))
        } else {
            t0.nodes[a[k] as int].local_state
        },
        ..t0.nodes[a[k] as int]
    })
    &&& forall|k: int| 0 <= k < z ==> #[trigger] s1[k + 1] == if k <= r {
        minimal_state(requested_after(t0, a[k] as int, c, s0[k + 1]))
    } else {
        S::spec_run()
    }
    &&& forall|n: int| 0 <= n < t0.nodes.len() && (forall|k: int| 0 <= k < z ==> #[trigger] a[k] != n)
        ==> #[trigger] t1.nodes[n] == t0.nodes[n]
}

impl<S: PlatformPowerStateInterface> PsciCompositePowerState<S> {
    /// Fills the structure with the current local states of the given CPU node and of its
    /// ancestor non-CPU nodes, lowest level first.
    pub fn set_local_states_from_nodes(&mut self, tree: &PowerDomainTree<S>, cpu_index: usize, ancestors: &Vec<usize>)
        requires
            tree@.wf(),
            cpu_index < tree@.cpus.len(),
            old(self).states@.len() > 0,
            forall|k: int| 0 <= k < ancestors@.len() ==> #[trigger] ancestors@[k] < tree@.nodes.len(),
        ensures
            final(self).states@.len() == old(self).states@.len(),
            final(self).states@[0] == tree@.cpus[cpu_index as int].local_state,
            forall|k: int| 0 <= k < covered_levels(ancestors@.len() as int, old(self).states@.len() as int)
                ==> #[trigger] final(self).states@[k + 1] == tree@.nodes[ancestors@[k] as int].local_state,
            forall|j: int| covered_levels(ancestors@.len() as int, old(self).states@.len() as int) < j < old(self).states@.len()
                ==> #[trigger] final(self).states@[j] == old(self).states@[j],
    {
        let cpu_state = tree.cpu_node(cpu_index).local_state();
        self.states.set(CPU_POWER_LEVEL, cpu_state);
        let mut k: usize = 0;
        while k < ancestors.len() && k + 1 < self.states.len()
            invariant
                tree@.wf(),
                k <= ancestors@.len(),
                k <= covered_levels(ancestors@.len() as int, old(self).states@.len() as int),
                self.states@.len() == old(self).states@.len(),
                self.states@[0] == tree@.cpus[cpu_index as int].local_state,
                forall|a: int| 0 <= a < ancestors@.len() ==> #[trigger] ancestors@[a] < tree@.nodes.len(),
                forall|j: int| 0 <= j < k ==> #[trigger] self.states@[j + 1] == tree@.nodes[ancestors@[j] as int].local_state,
                forall|j: int| k < j < old(self).states@.len() ==> #[trigger] self.states@[j] == old(self).states@[j],
            decreases ancestors@.len() - k,
        {
            let state = tree.non_cpu_node(ancestors[k]).local_state();
            self.states.set(k + 1, state);
            k = k + 1;
        }
    }

    /// Requests this composite state for all ancestor nodes of the CPU and lets each node go to
    /// the lowest state its descendants allow. Going up the ancestors, CPU `cpu_index` requests
    /// the state of each level from the node of that level; the node then takes the shallowest
    /// state requested from it, and the composite state takes that state for the level. Once a
    /// node has to stay running, the levels above it are set to running, and their nodes keep
    /// their local state.
    pub fn coordinate_state(&mut self, tree: &mut PowerDomainTree<S>, cpu_index: usize, ancestors: &Vec<usize>)
        requires
            old(tree)@.wf(),
            cpu_index < old(tree)@.cpus.len(),
            old(self).states@.len() > 0,
            forall|k: int| 0 <= k < ancestors@.len() ==> old(tree)@.cpu_ancestor(cpu_index as int, k as nat) == Some(#[trigger] ancestors@[k] as int),
            forall|i: int, j: int| 0 <= i < j < ancestors@.len() ==> #[trigger] ancestors@[j] < #[trigger] ancestors@[i],
        ensures
            coordinated(old(tree)@, old(self).states@, ancestors@, cpu_index as int, final(tree)@, final(self).states@),
    {
        let ghost t0 = tree@;
        let ghost s0 = self.states@;
        let ghost c = cpu_index as int;
        let ghost z = covered_levels(ancestors@.len() as int, s0.len() as int);
        let ghost r = first_run_level(t0, s0, ancestors@, c, 0, z);
        proof { lemma_first_run_level_bounds(t0, s0, ancestors@, c, 0, z); }
        let mut higher_levels_are_run = false;
        let mut k: usize = 0;
        while k < ancestors.len() && k + 1 < self.states.len()
            invariant
                t0 == old(tree)@,
                s0 == old(self).states@,
                c == cpu_index as int,
                z == covered_levels(ancestors@.len() as int, s0.len() as int),
                r == first_run_level(t0, s0, ancestors@, c, 0, z),
                t0.wf(),
                cpu_index < t0.cpus.len(),
                forall|j: int| 0 <= j < ancestors@.len() ==> t0.cpu_ancestor(c, j as nat) == Some(#[trigger] ancestors@[j] as int),
                forall|i: int, j: int| 0 <= i < j < ancestors@.len() ==> #[trigger] ancestors@[j] < #[trigger] ancestors@[i],
                0 <= k <= z,
                higher_levels_are_run == (r < k),
                !higher_levels_are_run ==> r == first_run_level(t0, s0, ancestors@, c, k as int, z),
                tree@.wf(),
                tree@.cpus == t0.cpus,
                tree@.max_power_level == t0.max_power_level,
                tree@.nodes.len() == t0.nodes.len(),
                self.states@.len() == s0.len(),
                self.states@[0] == s0[0],
                forall|j: int| k < j < s0.len() ==> #[trigger] self.states@[j] == s0[j],
                forall|j: int| 0 <= j < k ==> #[trigger] tree@.nodes[ancestors@[j] as int] == (NonCpuNodeView {
                    requested_states: requested_after(t0, ancestors@[j] as int, c, s0[j + 1]),
                    local_state: if j <= r {
                        minimal_state(requested_after(t0, ancestors@[j] as int, c, s0[j + 1]))
                    } else {
                        t0.nodes[ancestors@[j] as int].local_state
                    },
                    ..t0.nodes[ancestors@[j] as int]
                }),
                forall|j: int| 0 <= j < k ==> #[trigger] self.states@[j + 1] == if j <= r {
                    minimal_state(requested_after(t0, ancestors@[j] as int, c, s0[j + 1]))
                } else {
                    S::spec_run()
                },
                forall|n: int| 0 <= n < t0.nodes.len() && (forall|j: int| 0 <= j < k ==> #[trigger] ancestors@[j] != n)
                    ==> #[trigger] tree@.nodes[n] == t0.nodes[n],
            decreases ancestors@.len() - k,
        {
            let a = ancestors[k];
            let state = self.states[k + 1];
            proof {
                assert(t0.cpu_ancestor(c, k as nat) == Some(a as int));
                power_domain_tree::lemma_ancestor_in_range(t0, t0.cpus[c].parent as int, k as nat);
                assert forall|j: int| 0 <= j < k implies #[trigger] ancestors@[j] != a by {
                    assert(ancestors@[k as int] < ancestors@[j]);
                }
                assert(tree@.nodes[a as int] == t0.nodes[a as int]);
                assert(t0.nodes[a as int].has_cpu(c));
                assert(t0.nodes[a as int].wf());
            }
            tree.set_requested_power_state(a, cpu_index, state);
            proof {
                assert(state == s0[k + 1]);
                if k + 1 <= z {
                    lemma_first_run_level_bounds(t0, s0, ancestors@, c, k + 1, z);
                }
            }
            if !higher_levels_are_run {
                tree.set_minimal_allowed_state(a);
                let local = tree.non_cpu_node(a).local_state();
                self.states.set(k + 1, local);
                if local.power_state_type() == PowerStateType::Run {
                    higher_levels_are_run = true;
                }
            } else {
                self.states.set(k + 1, S::run());
            }
            proof {
                assert forall|j: int| 0 <= j < k implies #[trigger] ancestors@[j] != a by {
                    assert(ancestors@[k as int] < ancestors@[j]);
                }
            }
            k = k + 1;
        }
    }
}

/// Optional platform feature: SYSTEM_OFF2.
pub const FEATURE_SYSTEM_OFF2: u64 = 1 << 0;
/// Optional platform feature: SYSTEM_RESET2.
pub const FEATURE_SYSTEM_RESET2: u64 = 1 << 1;
/// Optional platform feature: MEM_PROTECT.
pub const FEATURE_MEM_PROTECT: u64 = 1 << 2;
/// Optional platform feature: MEM_PROTECT_CHECK_RANGE.
pub const FEATURE_MEM_PROTECT_CHECK_RANGE: u64 = 1 << 3;
/// Optional platform feature: CPU_FREEZE.
pub const FEATURE_CPU_FREEZE: u64 = 1 << 4;
/// Optional platform feature: CPU_DEFAULT_SUSPEND.
pub const FEATURE_CPU_DEFAULT_SUSPEND: u64 = 1 << 5;
/// Optional platform feature: NODE_HW_STATE.
pub const FEATURE_NODE_HW_STATE: u64 = 1 << 6;
/// Optional platform feature: SYSTEM_SUSPEND.
pub const FEATURE_SYSTEM_SUSPEND: u64 = 1 << 7;
/// Optional platform feature: OS-initiated mode of PSCI_SET_SUSPEND_MODE.
pub const FEATURE_OS_INITIATED_MODE: u64 = 1 << 8;

/// CPU_SUSPEND feature flag: the extended power state format is used.
pub const CPU_SUSPEND_EXTENDED_POWER_STATE: u64 = 0x2;
/// CPU_SUSPEND feature flag: OS-initiated mode is supported.
pub const CPU_SUSPEND_OS_INITIATED_MODE: u64 = 0x1;
/// SYSTEM_OFF2 feature flag: hibernate off is supported.
pub const SYSTEM_OFF2_HIBERNATE_OFF: u64 = 0x1;

/// The PSCI version this implementation reports: 1.3, as `major << 16 | minor`.
pub const PSCI_VERSION_1_3: u64 = 0x0001_0003;

/// Whether the feature set `features` contains `feature`.
pub open spec fn has_feature(features: u64, feature: u64) -> bool {
    features & feature != 0
}

/// Returns whether the feature set `features` contains the single-bit `feature`.
pub fn contains_feature(features: u64, feature: u64) -> (r: bool)
    ensures
        r == has_feature(features, feature),
{
    features & feature != 0
}

/// The answer to PSCI_FEATURES for `feature`, on a platform with the optional features
/// `features`.
pub open spec fn features_result(feature: PsciFeature, features: u64) -> Result<u64, ErrorCode> {
    let optional = |flag: u64| if has_feature(features, flag) { Ok(0u64) } else { Err(ErrorCode::NotSupported) };
    match feature {
        PsciFeature::SmcccVersion => Ok(0),
        PsciFeature::PsciFunction(id) => {
            if id == abi::PSCI_VERSION || id == abi::CPU_OFF || id == abi::CPU_ON_32 || id == abi::CPU_ON_64
                || id == abi::AFFINITY_INFO_32 || id == abi::AFFINITY_INFO_64 || id == abi::SYSTEM_OFF
                || id == abi::SYSTEM_RESET || id == abi::PSCI_FEATURES || id == abi::MIGRATE_INFO_TYPE {
                Ok(0)
            } else if id == abi::CPU_SUSPEND_32 || id == abi::CPU_SUSPEND_64 {
                Ok(CPU_SUSPEND_EXTENDED_POWER_STATE | if has_feature(features, FEATURE_OS_INITIATED_MODE) {
                    CPU_SUSPEND_OS_INITIATED_MODE
                } else {
                    0
                })
            } else if id == abi::SYSTEM_OFF2_32 || id == abi::SYSTEM_OFF2_64 {
                if has_feature(features, FEATURE_SYSTEM_OFF2) {
                    Ok(SYSTEM_OFF2_HIBERNATE_OFF)
                } else {
                    Err(ErrorCode::NotSupported)
                }
            } else if id == abi::SYSTEM_RESET2_32 || id == abi::SYSTEM_RESET2_64 {
                optional(FEATURE_SYSTEM_RESET2)
            } else if id == abi::MEM_PROTECT {
                optional(FEATURE_MEM_PROTECT)
            } else if id == abi::MEM_PROTECT_CHECK_RANGE_32 || id == abi::MEM_PROTECT_CHECK_RANGE_64 {
                optional(FEATURE_MEM_PROTECT_CHECK_RANGE)
            } else if id == abi::CPU_FREEZE {
                optional(FEATURE_CPU_FREEZE)
            } else if id == abi::CPU_DEFAULT_SUSPEND_32 || id == abi::CPU_DEFAULT_SUSPEND_64 {
                optional(FEATURE_CPU_DEFAULT_SUSPEND)
            } else if id == abi::NODE_HW_STATE_32 || id == abi::NODE_HW_STATE_64 {
                optional(FEATURE_NODE_HW_STATE)
            } else if id == abi::SYSTEM_SUSPEND_32 || id == abi::SYSTEM_SUSPEND_64 {
                optional(FEATURE_SYSTEM_SUSPEND)
            } else if id == abi::PSCI_SET_SUSPEND_MODE {
                optional(FEATURE_OS_INITIATED_MODE)
            } else {
                Err(ErrorCode::NotSupported)
            }
        },
    }
}

/// Returns the answer to PSCI_FEATURES for `feature`, on a platform with the optional features
/// `features`: migration and the statistics functions are not supported, the optional functions
/// are supported where the platform has them, and all the others are.
pub fn handle_features(feature: PsciFeature, features: u64) -> (r: Result<u64, ErrorCode>)
    ensures
        r == features_result(feature, features),
{
    let check_optional = |flag: u64| -> (r: Result<u64, ErrorCode>)
        ensures
            r == (if has_feature(features, flag) { Ok(0u64) } else { Err(ErrorCode::NotSupported) }),
        {
            if contains_feature(features, flag) {
                Ok(0u64)
            } else {
                Err(ErrorCode::NotSupported)
            }
        };
    match feature {
        PsciFeature::SmcccVersion => Ok(0),
        PsciFeature::PsciFunction(id) => {
            if id == abi::PSCI_VERSION || id == abi::CPU_OFF || id == abi::CPU_ON_32 || id == abi::CPU_ON_64
                || id == abi::AFFINITY_INFO_32 || id == abi::AFFINITY_INFO_64 || id == abi::SYSTEM_OFF
                || id == abi::SYSTEM_RESET || id == abi::PSCI_FEATURES || id == abi::MIGRATE_INFO_TYPE {
                Ok(0)
            } else if id == abi::CPU_SUSPEND_32 || id == abi::CPU_SUSPEND_64 {
                let os_initiated = if contains_feature(features, FEATURE_OS_INITIATED_MODE) {
                    CPU_SUSPEND_OS_INITIATED_MODE
                } else {
                    0
                };
                Ok(CPU_SUSPEND_EXTENDED_POWER_STATE | os_initiated)
            } else if id == abi::SYSTEM_OFF2_32 || id == abi::SYSTEM_OFF2_64 {
                if contains_feature(features, FEATURE_SYSTEM_OFF2) {
                    Ok(SYSTEM_OFF2_HIBERNATE_OFF)
                } else {
                    Err(ErrorCode::NotSupported)
                }
            } else if id == abi::SYSTEM_RESET2_32 || id == abi::SYSTEM_RESET2_64 {
                check_optional(FEATURE_SYSTEM_RESET2)
            } else if id == abi::MEM_PROTECT {
                check_optional(FEATURE_MEM_PROTECT)
            } else if id == abi::MEM_PROTECT_CHECK_RANGE_32 || id == abi::MEM_PROTECT_CHECK_RANGE_64 {
                check_optional(FEATURE_MEM_PROTECT_CHECK_RANGE)
            } else if id == abi::CPU_FREEZE {
                check_optional(FEATURE_CPU_FREEZE)
            } else if id == abi::CPU_DEFAULT_SUSPEND_32 || id == abi::CPU_DEFAULT_SUSPEND_64 {
                check_optional(FEATURE_CPU_DEFAULT_SUSPEND)
            } else if id == abi::NODE_HW_STATE_32 || id == abi::NODE_HW_STATE_64 {
                check_optional(FEATURE_NODE_HW_STATE)
            } else if id == abi::SYSTEM_SUSPEND_32 || id == abi::SYSTEM_SUSPEND_64 {
                check_optional(FEATURE_SYSTEM_SUSPEND)
            } else if id == abi::PSCI_SET_SUSPEND_MODE {
                check_optional(FEATURE_OS_INITIATED_MODE)
            } else {
                Err(ErrorCode::NotSupported)
            }
        },
    }
}

/// PSCI platform interface: the platform's power state type, its power domain topology, and the
/// hooks that act on the power controller.
///
/// Whether the platform implements the optional functions has to be in sync with the optional
/// features that `features` reports. The functions which never return (powering the CPU down,
/// turning the system off or resetting it, freezing the CPU) are performed by the caller of
/// [`Psci`] from the [`PsciAction`] it returns.
pub trait PsciPlatformInterface {
    /// Platform-specific power state type.
    type PlatformPowerState: PlatformPowerStateInterface;

    /// The highest power level of the system.
    spec fn spec_max_power_level() -> nat;

    /// The optional features implemented by the platform.
    spec fn spec_features() -> u64;

    /// Returns the highest power level of the system.
    fn max_power_level() -> (r: usize)
        ensures
            r == Self::spec_max_power_level(),
    ;

    /// Returns the flags of the optional features implemented by the platform.
    fn features() -> (r: u64)
        ensures
            r == Self::spec_features(),
    ;

    /// The power domain topology, as the count of child nodes in a BFS traversal order.
    spec fn spec_topology() -> Seq<usize>;

    /// Returns the power domain topology as the count of child nodes in a BFS traversal order.
    fn topology() -> (r: Vec<usize>)
        ensures
            r@ == Self::spec_topology(),
    ;

    /// The state of each level that an extended PSCI power state value stands for, if any.
    spec fn spec_parse_power_state(power_state: PowerState) -> Option<Seq<Self::PlatformPowerState>>;

    /// Tries to convert an extended PSCI power state value into the state of each level; a state
    /// it returns is a valid suspend request for that kind of power state.
    fn try_parse_power_state(power_state: PowerState) -> (r: Option<PsciCompositePowerState<Self::PlatformPowerState>>)
        ensures
            match Self::spec_parse_power_state(power_state) {
                Some(states) => r matches Some(s) && s.states@ == states,
                None => r is None,
            },
            r matches Some(s) ==> {
                &&& s.states@.len() == Self::spec_max_power_level() + 1
                &&& is_valid_suspend(s.states@, power_state is PowerDown)
            },
    ;

    /// Places the current CPU into the given standby state and continues execution on an
    /// interrupt.
    fn cpu_standby(&self, cpu_state: Self::PlatformPowerState);

    /// Requests the target state of each level from the power controller, before a suspend.
    fn power_domain_suspend(&self, target_state: &PsciCompositePowerState<Self::PlatformPowerState>);

    /// Performs platform-specific operations after a wake-up from a standby or retention state.
    fn power_domain_suspend_finish(&self, previous_state: &PsciCompositePowerState<Self::PlatformPowerState>);

    /// Platform housekeeping before turning off the CPU.
    fn power_domain_off_early(&self, target_state: &PsciCompositePowerState<Self::PlatformPowerState>) -> Result<(), ErrorCode>;

    /// Performs platform-specific actions to turn this CPU off, such as programming the power
    /// controller.
    fn power_domain_off(&self, target_state: &PsciCompositePowerState<Self::PlatformPowerState>);

    /// Turns on the power domain of the CPU with the given MPIDR.
    fn power_domain_on(&self, mpidr: Mpidr) -> Result<(), ErrorCode>;

    /// Performs platform-specific actions after the CPU has been turned on.
    fn power_domain_on_finish(&self, previous_state: &PsciCompositePowerState<Self::PlatformPowerState>);

    /// Suspends the system to disk; does not return on success.
    fn system_off2(&self, off_type: SystemOff2Type, cookie: Cookie) -> Result<(), ErrorCode>;

    /// Performs an architectural or vendor-specific reset; does not return on success.
    fn system_reset2(&self, reset_type: ResetType, cookie: Cookie) -> Result<(), ErrorCode>;

    /// Enables or disables memory protection and returns its previous state.
    fn mem_protect(&self, enabled: bool) -> Result<bool, ErrorCode>;

    /// Checks whether the memory range is protected.
    fn mem_protect_check_range(&self, range: MemProtectRange) -> Result<(), ErrorCode>;

    /// Returns the power state for CPU_DEFAULT_SUSPEND.
    fn cpu_default_suspend_power_state(&self) -> (r: PowerState)
        ensures
            match r {
                PowerState::StandbyOrRetention(id) => id <= abi::POWER_STATE_ID_MASK,
                PowerState::PowerDown(id) => id <= abi::POWER_STATE_ID_MASK,
            },
    ;

    /// Returns the true hardware state of a power domain.
    fn node_hw_state(&self, mpidr: Mpidr, power_level: u32) -> Result<HwState, ErrorCode>;

    /// Returns the state of each level for SYSTEM_SUSPEND; where only its highest level is not
    /// running, it is a valid power down suspend request that powers down the highest level.
    fn sys_suspend_power_state(&self) -> (r: PsciCompositePowerState<Self::PlatformPowerState>)
        ensures
            r.states@.len() == Self::spec_max_power_level() + 1,
            highest_non_run(r.states@) == Some(Self::spec_max_power_level() as int) ==> {
                &&& is_valid_suspend(r.states@, true)
                &&& r.states@.last().spec_type() == PowerStateType::PowerDown
            },
    ;

    /// Whether a non-secure entry point is valid for the platform.
    spec fn spec_is_valid_ns_entrypoint(&self, entry: EntryPoint) -> bool;

    /// Validates a non-secure entry point.
    fn is_valid_ns_entrypoint(&self, entry: &EntryPoint) -> (r: bool)
        ensures
            r == self.spec_is_valid_ns_entrypoint(*entry),
    ;

    /// Checks whether the CPU has pending interrupts.
    fn has_pending_interrupts(&self) -> bool;
}

/// PSCI SPM interface: the callbacks that inform the Secure World about power management events.
pub trait PsciSpmInterface {
    /// Forwards a PSCI request, as the registers x0-x3 of the call, to the SPM; returns its PSCI
    /// return code.
    fn forward_psci_request(&self, psci_request: &[u64; 4]) -> u64;

    /// Notifies the SPM about a CPU_OFF event, after the request itself was forwarded.
    fn notify_cpu_off(&self);
}

/// Why a CPU was powered up, and the non-secure entry point it continues at.
#[derive(Clone, Copy, Debug, Eq, PartialEq, Structural)]
pub enum WakeUpReason {
    /// A CPU_ON call turned the CPU on.
    CpuOn(EntryPoint),
    /// The CPU woke up from a power down suspend.
    SuspendFinished(EntryPoint),
}

/// What is left to do after a PSCI call, which its caller performs on the hardware.
pub enum PsciAction<S> {
    /// Nothing: return the result to the caller.
    Return,
    /// Wait for an interrupt, then call [`Psci::finish_standby_suspend`] with the state.
    StandbyWfi(PsciCompositePowerState<S>),
    /// Power down the CPU's caches up to `level`, request the state from the platform with
    /// `power_domain_suspend`, and power down with `power_domain_power_down_wfi`; the CPU
    /// continues at [`Psci::handle_cpu_boot`].
    SuspendPowerDown { level: usize, state: PsciCompositePowerState<S> },
    /// Power down the CPU's caches up to `level`, turn the CPU off with `power_domain_off`, and
    /// power down with `power_domain_power_down_wfi`.
    CpuOffPowerDown { level: usize, state: PsciCompositePowerState<S> },
    /// Turn the system off.
    SystemOff,
    /// Reset the system.
    SystemReset,
    /// Freeze the CPU.
    CpuFreeze,
}

/// The CPU that makes a PSCI call.
#[derive(Clone, Copy, Debug, Eq, PartialEq, Structural)]
pub struct CpuCaller {
    /// Its linear core index.
    pub cpu_index: usize,
    /// Its MPIDR_EL1 value.
    pub mpidr_el1: u64,
}

/// The MPIDR_EL1 value of a PSCI MPIDR argument: its affinity fields, with the MT and U bits of
/// the calling CPU's MPIDR_EL1, which the argument does not include.
pub open spec fn spec_mpidr_el1_of(psci_mpidr: Mpidr, local_mpidr_el1: u64) -> u64 {
    psci_mpidr.spec_value() | (local_mpidr_el1 & (MPIDR_MT | MPIDR_U))
}

/// The linear core index of the CPU of a PSCI MPIDR argument, if the MPIDR is valid.
pub open spec fn spec_cpu_index_of<PL: Platform>(psci_mpidr: Mpidr, local_mpidr_el1: u64) -> Option<usize> {
    let mpidr = spec_mpidr_el1_of(psci_mpidr, local_mpidr_el1);
    if PL::spec_mpidr_is_valid(mpidr) {
        Some(PL::spec_core_position(mpidr) as usize)
    } else {
        None
    }
}

/// Returns the linear core index of the CPU of a PSCI MPIDR argument: a unique value below the
/// platform's core count for a valid MPIDR, `None` for an invalid one. The MT and U bits come
/// from the calling CPU's MPIDR_EL1, `local_mpidr_el1`.
pub fn try_get_cpu_index_by_mpidr<PL: Platform>(psci_mpidr: Mpidr, local_mpidr_el1: u64) -> (r: Option<usize>)
    ensures
        r == spec_cpu_index_of::<PL>(psci_mpidr, local_mpidr_el1),
        r matches Some(i) ==> i < PL::spec_core_count(),
{
    let mpidr = psci_mpidr.value() | (local_mpidr_el1 & (MPIDR_MT | MPIDR_U));
    if PL::mpidr_is_valid(mpidr) {
        proof { PL::lemma_core_position(mpidr); }
        Some(PL::core_position(mpidr))
    } else {
        None
    }
}

/// What holds of each CPU node between PSCI calls: a CPU with a pending CPU_ON has an entry
/// point, an off CPU has none, and an on CPU with an entry point is suspended in a power down
/// state.
pub open spec fn cpu_node_consistent<S: PlatformPowerStateInterface>(n: CpuNodeView<S>) -> bool {
    &&& n.affinity_info == AffinityInfo::OnPending ==> n.entry_point is Some
    &&& n.affinity_info == AffinityInfo::Off ==> n.entry_point is None
    &&& (n.affinity_info == AffinityInfo::On && n.entry_point is Some) ==> n.local_state.spec_type() == PowerStateType::PowerDown
}

/// The ancestors of a CPU after it requests the running state from each of `ancestors` and they
/// all run.
pub open spec fn ancestors_running<S: PlatformPowerStateInterface>(
    t0: PowerDomainTreeView<S>,
    t: PowerDomainTreeView<S>,
    c: int,
    ancestors: Seq<usize>,
) -> bool {
    &&& t.cpus == t0.cpus
    &&& t.max_power_level == t0.max_power_level
    &&& t.nodes.len() == t0.nodes.len()
    &&& forall|k: int| 0 <= k < ancestors.len() ==> #[trigger] t.nodes[ancestors[k] as int] == (NonCpuNodeView {
        requested_states: requested_after(t0, ancestors[k] as int, c, S::spec_run()),
        local_state: S::spec_run(),
        ..t0.nodes[ancestors[k] as int]
    })
    &&& forall|n: int| 0 <= n < t0.nodes.len() && (forall|k: int| 0 <= k < ancestors.len() ==> #[trigger] ancestors[k] != n)
        ==> #[trigger] t.nodes[n] == t0.nodes[n]
}

/// The main structure of the PSCI implementation: it handles the PSCI calls and stores the power
/// state of each power domain.
pub struct Psci<P: PsciPlatformInterface> {
    platform: P,
    power_domain_tree: PowerDomainTree<P::PlatformPowerState>,
    suspend_mode: SuspendMode,
}

impl<P: PsciPlatformInterface> Psci<P> {
    /// The power domain tree.
    pub closed spec fn tree(&self) -> PowerDomainTreeView<P::PlatformPowerState> {
        self.power_domain_tree@
    }

    /// The platform.
    pub closed spec fn spec_platform(&self) -> P {
        self.platform
    }

    /// The power state coordination mode.
    pub closed spec fn spec_suspend_mode(&self) -> SuspendMode {
        self.suspend_mode
    }

    /// The tree is well formed, has the platform's power levels, and each CPU node is
    /// consistent.
    pub open spec fn wf(&self) -> bool {
        &&& self.tree().wf()
        &&& self.tree().max_power_level == P::spec_max_power_level()
        &&& forall|c: int| 0 <= c < self.tree().cpus.len() ==> cpu_node_consistent(#[trigger] self.tree().cpus[c])
    }

    /// Whether CPU `cpu` runs: it is on, and not suspended.
    pub open spec fn is_running(&self, cpu: int) -> bool {
        &&& 0 <= cpu < self.tree().cpus.len()
        &&& self.tree().cpus[cpu].affinity_info == AffinityInfo::On
        &&& self.tree().cpus[cpu].entry_point is None
    }

    /// Returns the platform.
    pub fn platform(&self) -> &P {
        &self.platform
    }

    /// Returns the power domain tree.
    pub fn power_domain_tree(&self) -> (r: &PowerDomainTree<P::PlatformPowerState>)
        ensures
            r@ == self.tree(),
    {
        &self.power_domain_tree
    }

    /// Returns the power state coordination mode.
    pub fn suspend_mode(&self) -> (r: SuspendMode)
        ensures
            r == self.spec_suspend_mode(),
    {
        self.suspend_mode
    }

    /// Requests the running state for CPU `cpu_index` from each of `ancestors`, and sets them
    /// running.
    fn set_ancestors_running(tree: &mut PowerDomainTree<P::PlatformPowerState>, cpu_index: usize, ancestors: &Vec<usize>)
        requires
            old(tree)@.wf(),
            cpu_index < old(tree)@.cpus.len(),
            forall|k: int| 0 <= k < ancestors@.len() ==> old(tree)@.cpu_ancestor(cpu_index as int, k as nat) == Some(#[trigger] ancestors@[k] as int),
            forall|i: int, j: int| 0 <= i < j < ancestors@.len() ==> #[trigger] ancestors@[j] < #[trigger] ancestors@[i],
            forall|k: int| 0 <= k < ancestors@.len() ==> #[trigger] ancestors@[k] < old(tree)@.nodes.len(),
        ensures
            final(tree)@.wf(),
            ancestors_running(old(tree)@, final(tree)@, cpu_index as int, ancestors@),
    {
        let ghost t0 = tree@;
        let ghost c = cpu_index as int;
        let mut k: usize = 0;
        while k < ancestors.len()
            invariant
                t0 == old(tree)@,
                c == cpu_index as int,
                t0.wf(),
                cpu_index < t0.cpus.len(),
                forall|j: int| 0 <= j < ancestors@.len() ==> t0.cpu_ancestor(c, j as nat) == Some(#[trigger] ancestors@[j] as int),
                forall|i: int, j: int| 0 <= i < j < ancestors@.len() ==> #[trigger] ancestors@[j] < #[trigger] ancestors@[i],
                forall|j: int| 0 <= j < ancestors@.len() ==> #[trigger] ancestors@[j] < t0.nodes.len(),
                0 <= k <= ancestors@.len(),
                tree@.wf(),
                tree@.cpus == t0.cpus,
                tree@.max_power_level == t0.max_power_level,
                tree@.nodes.len() == t0.nodes.len(),
                forall|j: int| 0 <= j < k ==> #[trigger] tree@.nodes[ancestors@[j] as int] == (NonCpuNodeView {
                    requested_states: requested_after(t0, ancestors@[j] as int, c, P::PlatformPowerState::spec_run()),
                    local_state: P::PlatformPowerState::spec_run(),
                    ..t0.nodes[ancestors@[j] as int]
                }),
                forall|n: int| 0 <= n < t0.nodes.len() && (forall|j: int| 0 <= j < k ==> #[trigger] ancestors@[j] != n)
                    ==> #[trigger] tree@.nodes[n] == t0.nodes[n],
            decreases ancestors@.len() - k,
        {
            let a = ancestors[k];
            proof {
                assert(t0.cpu_ancestor(c, k as nat) == Some(a as int));
                power_domain_tree::lemma_ancestor_in_range(t0, t0.cpus[c].parent as int, k as nat);
                assert forall|j: int| 0 <= j < k implies #[trigger] ancestors@[j] != a by {
                    assert(ancestors@[k as int] < ancestors@[j]);
                }
                assert(tree@.nodes[a as int] == t0.nodes[a as int]);
                assert(t0.nodes[a as int].has_cpu(c));
            }
            tree.set_requested_power_state(a, cpu_index, P::PlatformPowerState::run());
            tree.set_node_local_state(a, P::PlatformPowerState::run());
            proof {
                assert forall|j: int| 0 <= j < k implies #[trigger] ancestors@[j] != a by {
                    assert(ancestors@[k as int] < ancestors@[j]);
                }
            }
            k = k + 1;
        }
    }

    /// Initialises the PSCI state with the platform's power domain tree built from its
    /// topology, and CPU `primary_cpu` and all its ancestors running, as [`Self::with_tree`]
    /// says. `None` if the platform's topology describes no tree, or the tree has no CPU
    /// `primary_cpu`.
    pub fn new(platform: P, primary_cpu: usize) -> (r: Option<Self>)
        ensures
            r matches Some(psci) ==> Self::initial(psci, primary_cpu),
    {
        let topology = P::topology();
        let max_power_level = P::max_power_level();
        let tree = match PowerDomainTree::new(topology.as_slice(), max_power_level) {
            Some(tree) => tree,
            None => return None,
        };
        Self::with_tree(platform, tree, primary_cpu)
    }

    /// The PSCI state right after initialisation with CPU `primary_cpu` as the one running CPU:
    /// it and its ancestors run, every other CPU is off, and the suspend mode is platform
    /// coordinated.
    pub open spec fn initial(psci: Self, primary_cpu: usize) -> bool {
        &&& psci.wf()
        &&& psci.is_running(primary_cpu as int)
        &&& psci.tree().cpus[primary_cpu as int].local_state == P::PlatformPowerState::spec_run()
        &&& psci.spec_suspend_mode() == SuspendMode::PlatformCoordinated
        &&& forall|c: int| 0 <= c < psci.tree().cpus.len() && c != primary_cpu ==>
            #[trigger] psci.tree().cpus[c].affinity_info == AffinityInfo::Off
    }

    /// Initialises the PSCI state with a newly built power domain tree, all of whose nodes are
    /// off, and CPU `primary_cpu` and all its ancestors running. `None` exactly when the tree has
    /// no CPU `primary_cpu`.
    pub fn with_tree(platform: P, tree: PowerDomainTree<P::PlatformPowerState>, primary_cpu: usize) -> (r: Option<Self>)
        requires
            tree@.wf(),
            tree@.max_power_level == P::spec_max_power_level(),
            forall|n: int| 0 <= n < tree@.nodes.len() ==> #[trigger] tree@.nodes[n].local_state
                == P::PlatformPowerState::spec_off(),
            forall|c: int| 0 <= c < tree@.cpus.len() ==> power_domain_tree::fresh_cpu(#[trigger] tree@.cpus[c]),
        ensures
            r is Some <==> primary_cpu < tree@.cpus.len(),
            r matches Some(psci) ==> {
                &&& Self::initial(psci, primary_cpu)
                &&& psci.tree().cpus.len() == tree@.cpus.len()
                &&& psci.tree().nodes.len() == tree@.nodes.len()
            },
    {
        let mut tree = tree;
        if primary_cpu >= tree.cpu_count() {
            return None;
        }
        let max_power_level = tree.max_power_level();
        tree.set_cpu_affinity_info(primary_cpu, AffinityInfo::On);
        tree.set_cpu_local_state(primary_cpu, P::PlatformPowerState::run());
        let ancestors = tree.ancestors(primary_cpu, max_power_level);
        Self::set_ancestors_running(&mut tree, primary_cpu, &ancestors);
        let psci = Psci { platform, power_domain_tree: tree, suspend_mode: SuspendMode::PlatformCoordinated };
        proof {
            assert forall|c: int| 0 <= c < psci.tree().cpus.len() implies cpu_node_consistent(#[trigger] psci.tree().cpus[c]) by {
                if c != primary_cpu {
                    assert(power_domain_tree::fresh_cpu(psci.tree().cpus[c]));
                }
            }
        }
        Some(psci)
    }

    /// Returns the linear core index of the CPU of an MPIDR argument, if it is valid and the
    /// tree has that CPU.
    fn cpu_index_of<PL: Platform>(&self, mpidr: Mpidr, local_mpidr_el1: u64) -> (r: Option<usize>)
        ensures
            r == (match spec_cpu_index_of::<PL>(mpidr, local_mpidr_el1) {
                Some(i) => if i < self.tree().cpus.len() { Some(i) } else { None },
                None => None,
            }),
    {
        match try_get_cpu_index_by_mpidr::<PL>(mpidr, local_mpidr_el1) {
            Some(i) => if i < self.power_domain_tree.cpu_count() { Some(i) } else { None },
            None => None,
        }
    }

    /// Handles AFFINITY_INFO: the affinity state of the CPU of `target_affinity`. Only the CPU
    /// level is supported.
    pub fn affinity_info<PL: Platform>(&self, caller: CpuCaller, target_affinity: Mpidr, lowest_affinity_level: u32) -> (r: Result<AffinityInfo, ErrorCode>)
        requires
            self.wf(),
        ensures
            r == (match spec_cpu_index_of::<PL>(target_affinity, caller.mpidr_el1) {
                Some(i) if i < self.tree().cpus.len() => if lowest_affinity_level > 0 {
                    Err(ErrorCode::InvalidParameters)
                } else {
                    Ok(self.tree().cpus[i as int].affinity_info)
                },
                _ => Err(ErrorCode::InvalidParameters),
            }),
    {
        let cpu_index = match self.cpu_index_of::<PL>(target_affinity, caller.mpidr_el1) {
            Some(i) => i,
            None => return Err(ErrorCode::InvalidParameters),
        };
        if lowest_affinity_level as usize > CPU_POWER_LEVEL {
            return Err(ErrorCode::InvalidParameters);
        }
        Ok(self.power_domain_tree.cpu_node(cpu_index).affinity_info())
    }
}

/// The highest power down level of a state is a power down state, and any power down state
/// makes the highest power down level exist.
pub proof fn lemma_highest_power_down<S: PlatformPowerStateInterface>(states: Seq<S>, i: int)
    ensures
        highest_power_down(states) matches Some(h) ==> 0 <= h < states.len() && states[h].spec_type() == PowerStateType::PowerDown,
        0 <= i < states.len() && states[i].spec_type() == PowerStateType::PowerDown ==> highest_power_down(states) is Some,
    decreases states.len(),
{
    if states.len() > 0 {
        lemma_highest_power_down(states.drop_last(), i);
        if 0 <= i < states.len() - 1 {
            assert(states.drop_last()[i] == states[i]);
        }
        if let Some(h) = highest_power_down(states.drop_last()) {
            assert(states.drop_last()[h] == states[h]);
        }
    }
}

/// The highest non-running level of a state is not running.
pub proof fn lemma_highest_non_run<S: PlatformPowerStateInterface>(states: Seq<S>)
    ensures
        highest_non_run(states) matches Some(h) ==> 0 <= h < states.len() && states[h].spec_type() != PowerStateType::Run,
    decreases states.len(),
{
    if states.len() > 0 {
        lemma_highest_non_run(states.drop_last());
        if let Some(h) = highest_non_run(states.drop_last()) {
            assert(states.drop_last()[h] == states[h]);
        }
    }
}

/// In a valid power down suspend request the CPU level powers down.
pub proof fn lemma_valid_power_down_cpu_level<S: PlatformPowerStateInterface>(states: Seq<S>)
    requires
        is_valid_suspend(states, true),
    ensures
        states.len() > 0,
        states[0].spec_type() == PowerStateType::PowerDown,
{
    lemma_highest_power_down(states, 0);
    let h = highest_power_down(states)->0;
    assert(states[0].spec_depth() >= states[h].spec_depth());
    S::lemma_power_state_order(states[0], states[h]);
}

/// The registers x0-x3 of a PSCI call that is forwarded to the SPM, as `arm_psci` encodes them.
pub open spec fn spec_spm_request(call: PsciCall) -> Seq<u64> {
    match call {
        PsciCall::CpuOff => seq![abi::CPU_OFF as u64, 0, 0, 0],
        PsciCall::SystemOff => seq![abi::SYSTEM_OFF as u64, 0, 0, 0],
        PsciCall::SystemReset => seq![abi::SYSTEM_RESET as u64, 0, 0, 0],
        PsciCall::CpuSuspend { state, entry } => seq![
            (if entry is Entry32 { abi::CPU_SUSPEND_32 } else { abi::CPU_SUSPEND_64 }) as u64,
            spec_power_state_value(state) as u64,
            entry.spec_address(),
            entry.spec_context_id(),
        ],
        PsciCall::SystemSuspend { entry } => seq![
            (if entry is Entry32 { abi::SYSTEM_SUSPEND_32 } else { abi::SYSTEM_SUSPEND_64 }) as u64,
            entry.spec_address(),
            entry.spec_context_id(),
            0,
        ],
        PsciCall::SystemOff2 { cookie, .. } => seq![
            (if cookie is Cookie32 { abi::SYSTEM_OFF2_32 } else { abi::SYSTEM_OFF2_64 }) as u64,
            1,
            spec_cookie_value(cookie),
            0,
        ],
        PsciCall::SystemReset2 { reset_type, cookie } => seq![
            (if cookie is Cookie32 { abi::SYSTEM_RESET2_32 } else { abi::SYSTEM_RESET2_64 }) as u64,
            spec_reset_type_value(reset_type) as u64,
            spec_cookie_value(cookie),
            0,
        ],
        _ => seq![0, 0, 0, 0],
    }
}

/// The power_state parameter value of a power state.
pub open spec fn spec_power_state_value(state: PowerState) -> u32 {
    match state {
        PowerState::StandbyOrRetention(id) => id,
        PowerState::PowerDown(id) => abi::POWER_STATE_TYPE_PD_BIT | id,
    }
}

/// The register value of a SYSTEM_OFF2 or SYSTEM_RESET2 cookie.
pub open spec fn spec_cookie_value(cookie: Cookie) -> u64 {
    match cookie {
        Cookie::Cookie32(v) => v as u64,
        Cookie::Cookie64(v) => v,
    }
}

/// The parameter value of a SYSTEM_RESET2 reset type.
pub open spec fn spec_reset_type_value(reset_type: ResetType) -> u32 {
    match reset_type {
        ResetType::SystemWarmReset => 0,
        ResetType::VendorSpecific(t) => t | abi::RESET_TYPE_VENDOR_SPECIFIC_BIT,
    }
}

/// Whether a call is one that PSCI forwards to the SPM, with an encodable power state.
pub open spec fn is_forwarded(call: PsciCall) -> bool {
    match call {
        PsciCall::CpuOff | PsciCall::SystemOff | PsciCall::SystemReset | PsciCall::SystemSuspend { .. }
        | PsciCall::SystemOff2 { .. } | PsciCall::SystemReset2 { .. } => true,
        PsciCall::CpuSuspend { state, .. } => match state {
            PowerState::StandbyOrRetention(id) => id <= abi::POWER_STATE_ID_MASK,
            PowerState::PowerDown(id) => id <= abi::POWER_STATE_ID_MASK,
        },
        _ => false,
    }
}

impl EntryPoint {
    /// The context ID.
    pub open spec fn spec_context_id(self) -> u64 {
        match self {
            EntryPoint::Entry32 { context_id, .. } => context_id as u64,
            EntryPoint::Entry64 { context_id, .. } => context_id,
        }
    }
}

/// Returns the registers x0-x3 of a PSCI call that is forwarded to the SPM.
pub fn spm_request(call: &PsciCall) -> (r: [u64; 4])
    requires
        is_forwarded(*call),
    ensures
        r@ == spec_spm_request(*call),
{
    let r: [u64; 4] = match *call {
        PsciCall::CpuOff => [abi::CPU_OFF as u64, 0, 0, 0],
        PsciCall::SystemOff => [abi::SYSTEM_OFF as u64, 0, 0, 0],
        PsciCall::SystemReset => [abi::SYSTEM_RESET as u64, 0, 0, 0],
        PsciCall::CpuSuspend { state, entry } => {
            let id = match entry {
                EntryPoint::Entry32 { .. } => abi::CPU_SUSPEND_32,
                EntryPoint::Entry64 { .. } => abi::CPU_SUSPEND_64,
            };
            let value = match state {
                PowerState::StandbyOrRetention(id) => id,
                PowerState::PowerDown(id) => abi::POWER_STATE_TYPE_PD_BIT | id,
            };
            [id as u64, value as u64, entry.entry_point_address(), entry.context_id()]
        },
        PsciCall::SystemSuspend { entry } => {
            let id = match entry {
                EntryPoint::Entry32 { .. } => abi::SYSTEM_SUSPEND_32,
                EntryPoint::Entry64 { .. } => abi::SYSTEM_SUSPEND_64,
            };
            [id as u64, entry.entry_point_address(), entry.context_id(), 0]
        },
        PsciCall::SystemOff2 { cookie, .. } => {
            let (id, value) = match cookie {
                Cookie::Cookie32(v) => (abi::SYSTEM_OFF2_32, v as u64),
                Cookie::Cookie64(v) => (abi::SYSTEM_OFF2_64, v),
            };
            [id as u64, 1, value, 0]
        },
        PsciCall::SystemReset2 { reset_type, cookie } => {
            let (id, value) = match cookie {
                Cookie::Cookie32(v) => (abi::SYSTEM_RESET2_32, v as u64),
                Cookie::Cookie64(v) => (abi::SYSTEM_RESET2_64, v),
            };
            let reset = match reset_type {
                ResetType::SystemWarmReset => 0u32,
                ResetType::VendorSpecific(t) => t | abi::RESET_TYPE_VENDOR_SPECIFIC_BIT,
            };
            [id as u64, reset as u64, value, 0]
        },
        _ => [0, 0, 0, 0],
    };
    proof { assert(r@ =~= spec_spm_request(*call)); }
    r
}

/// Forwards a PSCI call to the SPM. The SPM cannot prevent the state change, so its answer is
/// not used.
pub fn forward_to_spm<M: PsciSpmInterface>(spm: &M, call: &PsciCall)
    requires
        is_forwarded(*call),
{
    let request = spm_request(call);
    let _ = spm.forward_psci_request(&request);
}

impl<P: PsciPlatformInterface> Psci<P> {
    /// What CPU_ON of `target_cpu` at `entry` does, from `before` to `after`, with result `r`:
    /// an invalid MPIDR or entry point, or a CPU that is not off, is refused with the tree
    /// unchanged; on success the CPU's CPU_ON is pending with the entry point; a refusal of the
    /// platform leaves the tree unchanged.
    pub open spec fn cpu_on_effect<PL: Platform>(
        before: Self,
        after: Self,
        caller: CpuCaller,
        target_cpu: Mpidr,
        entry: EntryPoint,
        r: Result<(), ErrorCode>,
    ) -> bool {
        match spec_cpu_index_of::<PL>(target_cpu, caller.mpidr_el1) {
            Some(i) if i < before.tree().cpus.len() => if !before.spec_platform().spec_is_valid_ns_entrypoint(entry) {
                r == Err::<(), ErrorCode>(ErrorCode::InvalidAddress) && after.tree() == before.tree()
            } else {
                let cpu = before.tree().cpus[i as int];
                &&& cpu.affinity_info == AffinityInfo::On ==> r == Err::<(), ErrorCode>(ErrorCode::AlreadyOn)
                &&& cpu.affinity_info == AffinityInfo::OnPending ==> r == Err::<(), ErrorCode>(ErrorCode::OnPending)
                &&& cpu.affinity_info != AffinityInfo::Off ==> after.tree() == before.tree()
                &&& r is Ok ==> cpu.affinity_info == AffinityInfo::Off && after.tree().cpus
                    == before.tree().cpus.update(i as int, CpuNodeView {
                    affinity_info: AffinityInfo::OnPending,
                    entry_point: Some(entry),
                    ..cpu
                })
                &&& r is Err ==> after.tree() == before.tree()
            },
            _ => r == Err::<(), ErrorCode>(ErrorCode::InvalidParameters) && after.tree() == before.tree(),
        }
    }

    /// Handles CPU_ON: turns on the CPU of `target_cpu`, which starts at `entry` in the
    /// non-secure world. The CPU must be off; its CPU_ON is pending until it boots.
    pub fn cpu_on<PL: Platform>(&mut self, caller: CpuCaller, target_cpu: Mpidr, entry: EntryPoint) -> (r: Result<(), ErrorCode>)
        requires
            old(self).wf(),
        ensures
            final(self).wf(),
            final(self).spec_suspend_mode() == old(self).spec_suspend_mode(),
            final(self).tree().nodes == old(self).tree().nodes,
            final(self).tree().cpus.len() == old(self).tree().cpus.len(),
            Self::cpu_on_effect::<PL>(*old(self), *final(self), caller, target_cpu, entry, r),
    {
        let cpu_index = match self.cpu_index_of::<PL>(target_cpu, caller.mpidr_el1) {
            Some(i) => i,
            None => return Err(ErrorCode::InvalidParameters),
        };
        if !self.platform.is_valid_ns_entrypoint(&entry) {
            return Err(ErrorCode::InvalidAddress);
        }
        match self.power_domain_tree.cpu_node(cpu_index).affinity_info() {
            AffinityInfo::On => return Err(ErrorCode::AlreadyOn),
            AffinityInfo::OnPending => return Err(ErrorCode::OnPending),
            AffinityInfo::Off => {},
        }
        let ghost before = self.tree();
        self.power_domain_tree.set_cpu_affinity_info(cpu_index, AffinityInfo::OnPending);
        proof {
            assert forall|c: int| 0 <= c < self.tree().cpus.len() && c != cpu_index implies cpu_node_consistent(
                #[trigger] self.tree().cpus[c],
            ) by {
                assert(self.tree().cpus[c] == before.cpus[c]);
            }
            assert(cpu_node_consistent(before.cpus[cpu_index as int]));
        }
        let power_on = self.platform.power_domain_on(target_cpu);
        let r = self.complete_cpu_on(cpu_index, entry, power_on);
        proof {
            if r is Ok {
                assert(self.tree().cpus =~= before.cpus.update(cpu_index as int, CpuNodeView {
                    affinity_info: AffinityInfo::OnPending,
                    entry_point: Some(entry),
                    ..before.cpus[cpu_index as int]
                }));
            } else {
                assert(self.tree().cpus =~= before.cpus);
            }
        }
        r
    }

    /// Whether CPU `cpu`'s CPU_ON is in progress: the CPU is marked as pending on without an
    /// entry point yet, and otherwise the state is well formed.
    pub open spec fn wf_pending_on(&self, cpu: int) -> bool {
        &&& self.tree().wf()
        &&& self.tree().max_power_level == P::spec_max_power_level()
        &&& 0 <= cpu < self.tree().cpus.len()
        &&& self.tree().cpus[cpu].affinity_info == AffinityInfo::OnPending
        &&& self.tree().cpus[cpu].entry_point is None
        &&& forall|c: int| 0 <= c < self.tree().cpus.len() && c != cpu ==> cpu_node_consistent(#[trigger] self.tree().cpus[c])
    }

    /// Completes CPU_ON of CPU `cpu_index` once the platform has answered the power-on request
    /// with `power_on`, and returns that answer. If the CPU was turned on, its CPU_ON is pending
    /// with the entry point; if the platform refused, the CPU is off again.
    pub fn complete_cpu_on(&mut self, cpu_index: usize, entry: EntryPoint, power_on: Result<(), ErrorCode>)
        -> (r: Result<(), ErrorCode>)
        requires
            old(self).wf_pending_on(cpu_index as int),
        ensures
            final(self).wf(),
            r == power_on,
            final(self).spec_suspend_mode() == old(self).spec_suspend_mode(),
            final(self).spec_platform() == old(self).spec_platform(),
            final(self).tree().nodes == old(self).tree().nodes,
            final(self).tree().max_power_level == old(self).tree().max_power_level,
            final(self).tree().cpus == old(self).tree().cpus.update(
                cpu_index as int,
                if power_on is Ok {
                    CpuNodeView { entry_point: Some(entry), ..old(self).tree().cpus[cpu_index as int] }
                } else {
                    CpuNodeView { affinity_info: AffinityInfo::Off, ..old(self).tree().cpus[cpu_index as int] }
                },
            ),
    {
        let ghost before = self.tree();
        match power_on {
            Ok(done) => {
                self.power_domain_tree.set_cpu_entry_point(cpu_index, entry);
                proof {
                    assert forall|c: int| 0 <= c < self.tree().cpus.len() implies cpu_node_consistent(#[trigger] self.tree().cpus[c]) by {
                        if c != cpu_index {
                            assert(self.tree().cpus[c] == before.cpus[c]);
                        }
                    }
                }
                Ok(done)
            },
            Err(error) => {
                self.power_domain_tree.set_cpu_affinity_info(cpu_index, AffinityInfo::Off);
                proof {
                    assert forall|c: int| 0 <= c < self.tree().cpus.len() implies cpu_node_consistent(#[trigger] self.tree().cpus[c]) by {
                        if c != cpu_index {
                            assert(self.tree().cpus[c] == before.cpus[c]);
                        }
                    }
                }
                Err(error)
            },
        }
    }

    /// Whether CPU `cpu` can boot: it has an entry point to continue at, from a CPU_ON or from a
    /// power down suspend.
    pub open spec fn can_boot(&self, cpu: int) -> bool {
        &&& 0 <= cpu < self.tree().cpus.len()
        &&& self.tree().cpus[cpu].entry_point is Some
    }

    /// Returns whether CPU `cpu_index` can boot: it has an entry point to continue at.
    pub fn cpu_can_boot(&self, cpu_index: usize) -> (r: bool)
        ensures
            r == self.can_boot(cpu_index as int),
    {
        cpu_index < self.power_domain_tree.cpu_count() && self.entry_point_is_set(cpu_index)
    }

    /// Returns whether CPU `cpu_index` has an entry point.
    fn entry_point_is_set(&self, cpu_index: usize) -> (r: bool)
        requires
            cpu_index < self.tree().cpus.len(),
        ensures
            r == self.tree().cpus[cpu_index as int].entry_point is Some,
    {
        self.power_domain_tree.cpu_node(cpu_index).entry_point_is_some()
    }
}

impl<P: PsciPlatformInterface> Psci<P> {
    /// Must be called when a CPU is powered up: completes its CPU_ON or its power down suspend,
    /// sets it and its ancestors running, and returns why it was powered up and the non-secure
    /// entry point it continues at.
    pub fn handle_cpu_boot(&mut self, cpu_index: usize) -> (r: WakeUpReason)
        requires
            old(self).wf(),
            old(self).can_boot(cpu_index as int),
        ensures
            final(self).wf(),
            final(self).is_running(cpu_index as int),
            final(self).spec_suspend_mode() == old(self).spec_suspend_mode(),
            final(self).tree().cpus.len() == old(self).tree().cpus.len(),
            final(self).tree().cpus[cpu_index as int].local_state == P::PlatformPowerState::spec_run(),
            forall|c: int| 0 <= c < old(self).tree().cpus.len() && c != cpu_index ==>
                #[trigger] final(self).tree().cpus[c] == old(self).tree().cpus[c],
            r == if old(self).tree().cpus[cpu_index as int].affinity_info == AffinityInfo::OnPending {
                WakeUpReason::CpuOn(old(self).tree().cpus[cpu_index as int].entry_point->0)
            } else {
                WakeUpReason::SuspendFinished(old(self).tree().cpus[cpu_index as int].entry_point->0)
            },
    {
        let ghost t0 = self.tree();
        proof { assert(cpu_node_consistent(t0.cpus[cpu_index as int])); }
        let max_power_level = P::max_power_level();
        let affinity_info = self.power_domain_tree.cpu_node(cpu_index).affinity_info();
        let target_power_level = match self.power_domain_tree.cpu_node(cpu_index).highest_affected_level() {
            Some(level) => level,
            None => max_power_level,
        };
        let ancestors = self.power_domain_tree.ancestors(cpu_index, target_power_level);
        let mut composite_state = PsciCompositePowerState::<P::PlatformPowerState>::run(max_power_level);
        composite_state.set_local_states_from_nodes(&self.power_domain_tree, cpu_index, &ancestors);
        let wake_from_suspend = if affinity_info == AffinityInfo::OnPending {
            self.platform.power_domain_on_finish(&composite_state);
            self.power_domain_tree.set_cpu_affinity_info(cpu_index, AffinityInfo::On);
            false
        } else {
            self.platform.power_domain_suspend_finish(&composite_state);
            self.power_domain_tree.clear_cpu_highest_affected_level(cpu_index);
            true
        };
        self.power_domain_tree.set_cpu_local_state(cpu_index, P::PlatformPowerState::run());
        proof {
            assert forall|k: int| 0 <= k < ancestors@.len() implies self.tree().cpu_ancestor(cpu_index as int, k as nat) == Some(#[trigger] ancestors@[k] as int) by {
                power_domain_tree::lemma_cpu_ancestor_same_nodes(t0, self.tree(), cpu_index as int, k as nat);
            }
        }
        Self::set_ancestors_running(&mut self.power_domain_tree, cpu_index, &ancestors);
        let entry_point = self.power_domain_tree.pop_cpu_entry_point(cpu_index);
        let entry_point = entry_point.unwrap();
        proof {
            assert forall|c: int| 0 <= c < self.tree().cpus.len() implies cpu_node_consistent(#[trigger] self.tree().cpus[c]) by {
                if c != cpu_index {
                    assert(self.tree().cpus[c] == t0.cpus[c]);
                    assert(cpu_node_consistent(t0.cpus[c]));
                }
            }
        }
        if wake_from_suspend {
            WakeUpReason::SuspendFinished(entry_point)
        } else {
            WakeUpReason::CpuOn(entry_point)
        }
    }

    /// Handles CPU_OFF for the calling CPU: once the platform allows it, forwards the call to
    /// the SPM, turns the CPU off and coordinates the state of its ancestors. The caller then
    /// powers the CPU down as the action says; the call does not return on success.
    pub fn cpu_off<M: PsciSpmInterface>(&mut self, caller: CpuCaller, spm: &M) -> (r: (Result<(), ErrorCode>, PsciAction<P::PlatformPowerState>))
        requires
            old(self).wf(),
            old(self).is_running(caller.cpu_index as int),
        ensures
            final(self).wf(),
            final(self).spec_suspend_mode() == old(self).spec_suspend_mode(),
            final(self).tree().cpus.len() == old(self).tree().cpus.len(),
            forall|c: int| 0 <= c < old(self).tree().cpus.len() && c != caller.cpu_index ==>
                #[trigger] final(self).tree().cpus[c] == old(self).tree().cpus[c],
            r.0 is Err ==> final(self).tree() == old(self).tree() && r.1 is Return,
            r.0 is Ok ==> {
                &&& final(self).tree().cpus[caller.cpu_index as int].affinity_info == AffinityInfo::Off
                &&& final(self).tree().cpus[caller.cpu_index as int].local_state == P::PlatformPowerState::spec_off()
                &&& r.1 matches PsciAction::CpuOffPowerDown { level, state } && state.states@.len() == P::spec_max_power_level() + 1
                    && highest_power_down(state.states@) == Some(level as int)
                &&& Self::cpu_off_coordinated(*old(self), *final(self), caller.cpu_index as int, r.1)
            },
    {
        let cpu_index = caller.cpu_index;
        let max_power_level = P::max_power_level();
        let mut composite_state = PsciCompositePowerState::<P::PlatformPowerState>::off(max_power_level);
        if let Err(error) = self.platform.power_domain_off_early(&composite_state) {
            return (Err(error), PsciAction::Return);
        }
        let ghost t0 = self.tree();
        let ancestors = self.power_domain_tree.ancestors(cpu_index, max_power_level);
        forward_to_spm(spm, &PsciCall::CpuOff);
        spm.notify_cpu_off();
        self.power_domain_tree.set_cpu_local_state(cpu_index, P::PlatformPowerState::off());
        proof {
            assert forall|k: int| 0 <= k < ancestors@.len() implies self.tree().cpu_ancestor(cpu_index as int, k as nat) == Some(#[trigger] ancestors@[k] as int) by {
                power_domain_tree::lemma_cpu_ancestor_same_nodes(t0, self.tree(), cpu_index as int, k as nat);
            }
        }
        let ghost off = self.tree();
        let ghost s0 = composite_state.states@;
        composite_state.coordinate_state(&mut self.power_domain_tree, cpu_index, &ancestors);
        let ghost t1 = self.tree();
        proof {
            P::PlatformPowerState::lemma_power_state_order(P::PlatformPowerState::spec_off(), P::PlatformPowerState::spec_off());
            lemma_highest_power_down(composite_state.states@, 0);
        }
        let level = composite_state.find_highest_power_down_level().unwrap();
        self.power_domain_tree.set_cpu_affinity_info(cpu_index, AffinityInfo::Off);
        proof {
            assert forall|c: int| 0 <= c < self.tree().cpus.len() implies cpu_node_consistent(#[trigger] self.tree().cpus[c]) by {
                if c != cpu_index {
                    assert(self.tree().cpus[c] == t0.cpus[c]);
                    assert(cpu_node_consistent(t0.cpus[c]));
                }
            }
            assert(off.cpus =~= t0.cpus.update(
                cpu_index as int,
                CpuNodeView { local_state: P::PlatformPowerState::spec_off(), ..t0.cpus[cpu_index as int] },
            ));
            assert(s0 == all_off::<P::PlatformPowerState>((P::spec_max_power_level() + 1) as nat));
            assert(coordinated(off, s0, ancestors@, cpu_index as int, t1, composite_state.states@));
        }
        (Ok(()), PsciAction::CpuOffPowerDown { level, state: composite_state })
    }
}

impl<P: PsciPlatformInterface> Psci<P> {
    /// What turning CPU `c` off makes of the PSCI state: the CPU's local state is set to off,
    /// the all-off state is coordinated over its ancestors (see [`coordinated`]), the CPU is off,
    /// and the action powers down in the coordinated state.
    pub open spec fn cpu_off_coordinated(before: Self, after: Self, c: int, action: PsciAction<P::PlatformPowerState>) -> bool {
        let off = PowerDomainTreeView {
            cpus: before.tree().cpus.update(
                c,
                CpuNodeView { local_state: P::PlatformPowerState::spec_off(), ..before.tree().cpus[c] },
            ),
            ..before.tree()
        };
        exists|a: Seq<usize>, t1: PowerDomainTreeView<P::PlatformPowerState>, s1: Seq<P::PlatformPowerState>|
            #[trigger] coordinated(
                off,
                all_off::<P::PlatformPowerState>((P::spec_max_power_level() + 1) as nat),
                a,
                c,
                t1,
                s1,
            ) && {
                &&& before.tree().is_ancestor_list(c, P::spec_max_power_level(), a)
                &&& after.tree() == (PowerDomainTreeView {
                    cpus: t1.cpus.update(c, CpuNodeView { affinity_info: AffinityInfo::Off, ..t1.cpus[c] }),
                    ..t1
                })
                &&& action matches PsciAction::CpuOffPowerDown { level, state } && state.states@ == s1
            }
    }

    /// What entering a suspend of CPU `c` towards the composite state `states`, over the levels
    /// up to `highest_affected_level`, makes of the PSCI state and which action it asks for: the
    /// state is coordinated over the CPU's ancestors (see [`coordinated`]), the CPU takes the
    /// coordinated CPU level state, and for a power down state its entry point is stored and the
    /// action powers down at the highest power down level of the coordinated state; for a
    /// standby state the action waits in the coordinated state.
    pub open spec fn suspend_entered(
        before: Self,
        after: Self,
        c: int,
        highest_affected_level: nat,
        states: Seq<P::PlatformPowerState>,
        entry: EntryPoint,
        is_power_down_state: bool,
        action: PsciAction<P::PlatformPowerState>,
    ) -> bool {
        exists|a: Seq<usize>, t1: PowerDomainTreeView<P::PlatformPowerState>, s1: Seq<P::PlatformPowerState>|
            #[trigger] coordinated(before.tree(), states, a, c, t1, s1) && {
                &&& before.tree().is_ancestor_list(c, highest_affected_level, a)
                &&& after.spec_suspend_mode() == before.spec_suspend_mode()
                &&& after.tree() == (PowerDomainTreeView {
                    cpus: t1.cpus.update(
                        c,
                        CpuNodeView {
                            local_state: s1[0],
                            entry_point: if is_power_down_state { Some(entry) } else { t1.cpus[c].entry_point },
                            ..t1.cpus[c]
                        },
                    ),
                    ..t1
                })
                &&& if is_power_down_state {
                    action matches PsciAction::SuspendPowerDown { level, state } && state.states@ == s1
                        && highest_power_down(s1) == Some(level as int)
                } else {
                    action matches PsciAction::StandbyWfi(state) && state.states@ == s1
                }
            }
    }

    /// The common part of CPU_SUSPEND and SYSTEM_SUSPEND for the calling CPU, towards
    /// `composite_state`, affecting the levels up to `highest_affected_level`. Returns at once
    /// if an interrupt is pending, as the platform tells; otherwise goes on as
    /// [`Psci::suspend_unless_pending`] says.
    fn cpu_suspend_start<M: PsciSpmInterface>(
        &mut self,
        caller: CpuCaller,
        spm: &M,
        call: PsciCall,
        entry: EntryPoint,
        highest_affected_level: usize,
        composite_state: PsciCompositePowerState<P::PlatformPowerState>,
        is_power_down_state: bool,
    ) -> (r: (Result<(), ErrorCode>, PsciAction<P::PlatformPowerState>))
        requires
            old(self).wf(),
            old(self).is_running(caller.cpu_index as int),
            composite_state.states@.len() == P::spec_max_power_level() + 1,
            is_valid_suspend(composite_state.states@, is_power_down_state),
            is_power_down_state ==> is_forwarded(call),
        ensures
            final(self).wf(),
            final(self).spec_suspend_mode() == old(self).spec_suspend_mode(),
            final(self).tree().cpus.len() == old(self).tree().cpus.len(),
            forall|c: int| 0 <= c < old(self).tree().cpus.len() && c != caller.cpu_index ==>
                #[trigger] final(self).tree().cpus[c] == old(self).tree().cpus[c],
            r.0 == Ok::<(), ErrorCode>(()),
            r.1 is Return ==> final(self).tree() == old(self).tree(),
            r.1 is StandbyWfi ==> !is_power_down_state && final(self).is_running(caller.cpu_index as int),
            r.1 is SuspendPowerDown ==> is_power_down_state && final(self).tree().cpus[caller.cpu_index as int].entry_point == Some(entry),
            !(r.1 is CpuOffPowerDown || r.1 is SystemOff || r.1 is SystemReset || r.1 is CpuFreeze),
            !(r.1 is Return) ==> Self::suspend_entered(
                *old(self),
                *final(self),
                caller.cpu_index as int,
                highest_affected_level as nat,
                composite_state.states@,
                entry,
                is_power_down_state,
                r.1,
            ),
    {
        let pending = self.platform.has_pending_interrupts();
        self.suspend_unless_pending(caller, spm, call, entry, highest_affected_level, composite_state, is_power_down_state, pending)
    }

    /// The common part of CPU_SUSPEND and SYSTEM_SUSPEND for the calling CPU, towards
    /// `composite_state`, affecting the levels up to `highest_affected_level`, given whether an
    /// interrupt is `pending`. Returns at once, with nothing changed, if one is. Otherwise
    /// coordinates the state of the ancestors; for a power down state forwards `call` to the SPM
    /// and stores the entry point, and the caller powers the CPU down as the action says; for a
    /// standby state requests the state from the platform, and the caller waits for an interrupt
    /// and finishes with [`Psci::finish_standby_suspend`].
    pub fn suspend_unless_pending<M: PsciSpmInterface>(
        &mut self,
        caller: CpuCaller,
        spm: &M,
        call: PsciCall,
        entry: EntryPoint,
        highest_affected_level: usize,
        composite_state: PsciCompositePowerState<P::PlatformPowerState>,
        is_power_down_state: bool,
        pending: bool,
    ) -> (r: (Result<(), ErrorCode>, PsciAction<P::PlatformPowerState>))
        requires
            old(self).wf(),
            old(self).is_running(caller.cpu_index as int),
            composite_state.states@.len() == P::spec_max_power_level() + 1,
            is_valid_suspend(composite_state.states@, is_power_down_state),
            is_power_down_state ==> is_forwarded(call),
        ensures
            final(self).wf(),
            final(self).spec_suspend_mode() == old(self).spec_suspend_mode(),
            final(self).tree().cpus.len() == old(self).tree().cpus.len(),
            forall|c: int| 0 <= c < old(self).tree().cpus.len() && c != caller.cpu_index ==>
                #[trigger] final(self).tree().cpus[c] == old(self).tree().cpus[c],
            r.0 == Ok::<(), ErrorCode>(()),
            r.1 is Return ==> final(self).tree() == old(self).tree(),
            r.1 is StandbyWfi ==> !is_power_down_state && final(self).is_running(caller.cpu_index as int),
            r.1 is SuspendPowerDown ==> is_power_down_state && final(self).tree().cpus[caller.cpu_index as int].entry_point == Some(entry),
            !(r.1 is CpuOffPowerDown || r.1 is SystemOff || r.1 is SystemReset || r.1 is CpuFreeze),
            pending ==> r.1 is Return && *final(self) == *old(self),
            !pending ==> !(r.1 is Return) && Self::suspend_entered(
                *old(self),
                *final(self),
                caller.cpu_index as int,
                highest_affected_level as nat,
                composite_state.states@,
                entry,
                is_power_down_state,
                r.1,
            ),
    {
        let cpu_index = caller.cpu_index;
        let mut composite_state = composite_state;
        let ghost t0 = self.tree();
        let ghost s0 = composite_state.states@;
        let ancestors = self.power_domain_tree.ancestors(cpu_index, highest_affected_level);
        if pending {
            return (Ok(()), PsciAction::Return);
        }
        proof {
            if is_power_down_state {
                lemma_valid_power_down_cpu_level(composite_state.states@);
            }
        }
        composite_state.coordinate_state(&mut self.power_domain_tree, cpu_index, &ancestors);
        let ghost t1 = self.tree();
        let ghost s1 = composite_state.states@;
        let ghost c = cpu_index as int;
        let cpu_state = composite_state.cpu_level_state();
        self.power_domain_tree.set_cpu_local_state(cpu_index, cpu_state);
        if is_power_down_state {
            forward_to_spm(spm, &call);
            self.power_domain_tree.set_cpu_entry_point(cpu_index, entry);
            proof { lemma_highest_power_down(composite_state.states@, 0); }
            let level = composite_state.find_highest_power_down_level().unwrap();
            proof {
                assert forall|c: int| 0 <= c < self.tree().cpus.len() implies cpu_node_consistent(#[trigger] self.tree().cpus[c]) by {
                    if c != cpu_index {
                        assert(self.tree().cpus[c] == t0.cpus[c]);
                        assert(cpu_node_consistent(t0.cpus[c]));
                    }
                }
            }
            proof {
                assert(self.tree().cpus =~= t1.cpus.update(
                    c,
                    CpuNodeView { local_state: s1[0], entry_point: Some(entry), ..t1.cpus[c] },
                ));
                assert(self.tree() =~= (PowerDomainTreeView {
                    cpus: t1.cpus.update(
                        c,
                        CpuNodeView { local_state: s1[0], entry_point: Some(entry), ..t1.cpus[c] },
                    ),
                    ..t1
                }));
                assert(coordinated(t0, s0, ancestors@, c, t1, s1));
            }
            (Ok(()), PsciAction::SuspendPowerDown { level, state: composite_state })
        } else {
            self.platform.power_domain_suspend(&composite_state);
            proof {
                assert forall|c: int| 0 <= c < self.tree().cpus.len() implies cpu_node_consistent(#[trigger] self.tree().cpus[c]) by {
                    if c != cpu_index {
                        assert(self.tree().cpus[c] == t0.cpus[c]);
                        assert(cpu_node_consistent(t0.cpus[c]));
                    }
                }
            }
            proof {
                assert(self.tree() =~= (PowerDomainTreeView {
                    cpus: t1.cpus.update(
                        c,
                        CpuNodeView { local_state: s1[0], entry_point: t1.cpus[c].entry_point, ..t1.cpus[c] },
                    ),
                    ..t1
                }));
                assert(coordinated(t0, s0, ancestors@, c, t1, s1));
            }
            (Ok(()), PsciAction::StandbyWfi(composite_state))
        }
    }

    /// Restores the running state after the calling CPU woke up from a standby suspend: reads
    /// the state of each level from the nodes, lets the platform finish the suspend, and sets
    /// the CPU and all its ancestors running.
    pub fn finish_standby_suspend(&mut self, caller: CpuCaller, composite_state: PsciCompositePowerState<P::PlatformPowerState>)
        requires
            old(self).wf(),
            old(self).is_running(caller.cpu_index as int),
            composite_state.states@.len() == P::spec_max_power_level() + 1,
        ensures
            final(self).wf(),
            final(self).is_running(caller.cpu_index as int),
            final(self).spec_suspend_mode() == old(self).spec_suspend_mode(),
            final(self).tree().cpus.len() == old(self).tree().cpus.len(),
            final(self).tree().cpus[caller.cpu_index as int].local_state == P::PlatformPowerState::spec_run(),
            forall|c: int| 0 <= c < old(self).tree().cpus.len() && c != caller.cpu_index ==>
                #[trigger] final(self).tree().cpus[c] == old(self).tree().cpus[c],
    {
        let cpu_index = caller.cpu_index;
        let mut composite_state = composite_state;
        let ghost t0 = self.tree();
        let ancestors = self.power_domain_tree.ancestors(cpu_index, P::max_power_level());
        composite_state.set_local_states_from_nodes(&self.power_domain_tree, cpu_index, &ancestors);
        self.platform.power_domain_suspend_finish(&composite_state);
        self.power_domain_tree.clear_cpu_highest_affected_level(cpu_index);
        self.power_domain_tree.set_cpu_local_state(cpu_index, P::PlatformPowerState::run());
        proof {
            assert forall|k: int| 0 <= k < ancestors@.len() implies self.tree().cpu_ancestor(cpu_index as int, k as nat) == Some(#[trigger] ancestors@[k] as int) by {
                power_domain_tree::lemma_cpu_ancestor_same_nodes(t0, self.tree(), cpu_index as int, k as nat);
            }
        }
        Self::set_ancestors_running(&mut self.power_domain_tree, cpu_index, &ancestors);
        proof {
            assert forall|c: int| 0 <= c < self.tree().cpus.len() implies cpu_node_consistent(#[trigger] self.tree().cpus[c]) by {
                if c != cpu_index {
                    assert(self.tree().cpus[c] == t0.cpus[c]);
                    assert(cpu_node_consistent(t0.cpus[c]));
                }
            }
        }
    }

    /// Handles CPU_SUSPEND for the calling CPU. A standby state which only affects the CPU level
    /// is entered and left right here, with `cpu_standby`. A power down state, or a standby state
    /// which affects higher levels, starts a suspend as [`Psci::cpu_suspend_start`] describes.
    pub fn cpu_suspend<M: PsciSpmInterface>(&mut self, caller: CpuCaller, spm: &M, power_state: PowerState, entry: EntryPoint)
        -> (r: (Result<(), ErrorCode>, PsciAction<P::PlatformPowerState>))
        requires
            old(self).wf(),
            old(self).is_running(caller.cpu_index as int),
            match power_state {
                PowerState::StandbyOrRetention(id) => id <= abi::POWER_STATE_ID_MASK,
                PowerState::PowerDown(id) => id <= abi::POWER_STATE_ID_MASK,
            },
        ensures
            final(self).wf(),
            final(self).spec_suspend_mode() == old(self).spec_suspend_mode(),
            final(self).tree().cpus.len() == old(self).tree().cpus.len(),
            forall|c: int| 0 <= c < old(self).tree().cpus.len() && c != caller.cpu_index ==>
                #[trigger] final(self).tree().cpus[c] == old(self).tree().cpus[c],
            r.0 is Err ==> r.1 is Return && final(self).tree() == old(self).tree(),
            r.1 is Return ==> final(self).is_running(caller.cpu_index as int),
            r.1 is StandbyWfi ==> !(power_state is PowerDown) && final(self).is_running(caller.cpu_index as int),
            r.1 is SuspendPowerDown ==> power_state is PowerDown && final(self).tree().cpus[caller.cpu_index as int].entry_point == Some(entry),
            !(r.1 is CpuOffPowerDown || r.1 is SystemOff || r.1 is SystemReset || r.1 is CpuFreeze),
            r.0 == (if P::spec_parse_power_state(power_state) is None {
                Err::<(), ErrorCode>(ErrorCode::InvalidParameters)
            } else if power_state is PowerDown && !old(self).spec_platform().spec_is_valid_ns_entrypoint(entry) {
                Err::<(), ErrorCode>(ErrorCode::InvalidAddress)
            } else {
                Ok::<(), ErrorCode>(())
            }),
            !(r.1 is Return) ==> (P::spec_parse_power_state(power_state) matches Some(states)
                && (highest_non_run(states) matches Some(level) && Self::suspend_entered(
                *old(self),
                *final(self),
                caller.cpu_index as int,
                level as nat,
                states,
                entry,
                power_state is PowerDown,
                r.1,
            ))),
    {
        let cpu_index = caller.cpu_index;
        let composite_state = match P::try_parse_power_state(power_state) {
            Some(state) => state,
            None => return (Err(ErrorCode::InvalidParameters), PsciAction::Return),
        };
        let is_power_down_state = match power_state {
            PowerState::PowerDown(_) => true,
            PowerState::StandbyOrRetention(_) => false,
        };
        let highest_affected_level = composite_state.find_highest_non_run_level().unwrap();
        if !is_power_down_state && highest_affected_level == CPU_POWER_LEVEL {
            let ghost t0 = self.tree();
            let cpu_pd_state = composite_state.cpu_level_state();
            self.power_domain_tree.set_cpu_local_state(cpu_index, cpu_pd_state);
            self.platform.cpu_standby(cpu_pd_state);
            self.power_domain_tree.set_cpu_local_state(cpu_index, P::PlatformPowerState::run());
            proof {
                assert forall|c: int| 0 <= c < self.tree().cpus.len() implies cpu_node_consistent(#[trigger] self.tree().cpus[c]) by {
                    if c != cpu_index {
                        assert(self.tree().cpus[c] == t0.cpus[c]);
                        assert(cpu_node_consistent(t0.cpus[c]));
                    }
                }
            }
            (Ok(()), PsciAction::Return)
        } else {
            if is_power_down_state && !self.platform.is_valid_ns_entrypoint(&entry) {
                return (Err(ErrorCode::InvalidAddress), PsciAction::Return);
            }
            let ghost states = composite_state.states@;
            assert(states == P::spec_parse_power_state(power_state)->0);
            proof { lemma_highest_non_run_bounds(states); }
            assert(highest_non_run(states) == Some(highest_affected_level as int));
            assert(is_power_down_state == (power_state is PowerDown));
            self.cpu_suspend_start(
                caller,
                spm,
                PsciCall::CpuSuspend { state: power_state, entry },
                entry,
                highest_affected_level,
                composite_state,
                is_power_down_state,
            )
        }
    }

    /// Handles SYSTEM_SUSPEND for the calling CPU, which must be the last CPU on: suspends the
    /// system to RAM in the platform's system suspend state, where only the highest level is not
    /// running, as [`Psci::cpu_suspend_start`] describes.
    pub fn system_suspend<M: PsciSpmInterface>(&mut self, caller: CpuCaller, spm: &M, entry: EntryPoint)
        -> (r: (Result<(), ErrorCode>, PsciAction<P::PlatformPowerState>))
        requires
            old(self).wf(),
            old(self).is_running(caller.cpu_index as int),
        ensures
            final(self).wf(),
            final(self).spec_suspend_mode() == old(self).spec_suspend_mode(),
            final(self).tree().cpus.len() == old(self).tree().cpus.len(),
            forall|c: int| 0 <= c < old(self).tree().cpus.len() && c != caller.cpu_index ==>
                #[trigger] final(self).tree().cpus[c] == old(self).tree().cpus[c],
            !has_feature(P::spec_features(), FEATURE_SYSTEM_SUSPEND) ==> r.0 == Err::<(), ErrorCode>(ErrorCode::NotSupported),
            has_feature(P::spec_features(), FEATURE_SYSTEM_SUSPEND) && !(forall|c: int| 0 <= c < old(self).tree().cpus.len()
                && c != caller.cpu_index ==> #[trigger] old(self).tree().cpus[c].affinity_info == AffinityInfo::Off)
                ==> r.0 == Err::<(), ErrorCode>(ErrorCode::Denied),
            has_feature(P::spec_features(), FEATURE_SYSTEM_SUSPEND) && (forall|c: int| 0 <= c < old(self).tree().cpus.len()
                && c != caller.cpu_index ==> #[trigger] old(self).tree().cpus[c].affinity_info == AffinityInfo::Off)
                && !old(self).spec_platform().spec_is_valid_ns_entrypoint(entry) ==> r.0 == Err::<(), ErrorCode>(ErrorCode::InvalidAddress),
            r.0 is Err ==> r.1 is Return && final(self).tree() == old(self).tree(),
            r.1 is Return ==> final(self).is_running(caller.cpu_index as int),
            r.1 is SuspendPowerDown ==> final(self).tree().cpus[caller.cpu_index as int].entry_point == Some(entry),
            !(r.1 is StandbyWfi || r.1 is CpuOffPowerDown || r.1 is SystemOff || r.1 is SystemReset || r.1 is CpuFreeze),
            !(r.1 is Return) ==> exists|states: Seq<P::PlatformPowerState>| #[trigger] Self::suspend_entered(
                *old(self),
                *final(self),
                caller.cpu_index as int,
                P::spec_max_power_level(),
                states,
                entry,
                true,
                r.1,
            ),
    {
        if !contains_feature(P::features(), FEATURE_SYSTEM_SUSPEND) {
            return (Err(ErrorCode::NotSupported), PsciAction::Return);
        }
        let cpu_index = caller.cpu_index;
        if !self.power_domain_tree.is_last_cpu(cpu_index) {
            return (Err(ErrorCode::Denied), PsciAction::Return);
        }
        if !self.platform.is_valid_ns_entrypoint(&entry) {
            return (Err(ErrorCode::InvalidAddress), PsciAction::Return);
        }
        let state = self.platform.sys_suspend_power_state();
        let max_power_level = P::max_power_level();
        match state.find_highest_non_run_level() {
            Some(level) => {
                if level != max_power_level {
                    return (Err(ErrorCode::Denied), PsciAction::Return);
                }
            },
            None => return (Err(ErrorCode::Denied), PsciAction::Return),
        }
        proof {
            lemma_highest_non_run(state.states@);
            assert(highest_non_run(state.states@) == Some(P::spec_max_power_level() as int));
        }
        let ghost states = state.states@;
        let r = self.cpu_suspend_start(caller, spm, PsciCall::SystemSuspend { entry }, entry, max_power_level, state, true);
        proof {
            if !(r.1 is Return) {
                assert(Self::suspend_entered(
                    *old(self),
                    *self,
                    caller.cpu_index as int,
                    P::spec_max_power_level(),
                    states,
                    entry,
                    true,
                    r.1,
                ));
            }
        }
        r
    }
}

/// The lowest PSCI function number.
pub const FUNCTION_NUMBER_MIN: u16 = 0x0000;
/// The highest PSCI function number.
pub const FUNCTION_NUMBER_MAX: u16 = 0x001F;

/// The register value of a PSCI result: the value, or the error code sign-extended.
pub open spec fn result_reg(r: Result<u64, ErrorCode>) -> u64 {
    match r {
        Ok(v) => v,
        Err(e) => i32_reg(e.spec_code()),
    }
}

impl<P: PsciPlatformInterface> Psci<P> {
    /// The result of PSCI_SET_SUSPEND_MODE to `mode` from CPU `cpu`: not supported without
    /// OS-initiated mode; success for the current mode, for platform-coordinated mode from the last
    /// CPU on, and for OS-initiated mode while all CPUs are on or from the last CPU on; denied
    /// otherwise.
    pub open spec fn set_suspend_mode_result(&self, cpu: int, mode: SuspendMode) -> Result<u64, ErrorCode> {
        let t = self.tree();
        let last = forall|c: int| 0 <= c < t.cpus.len() && c != cpu ==> #[trigger] t.cpus[c].affinity_info == AffinityInfo::Off;
        let all_on = forall|c: int| 0 <= c < t.cpus.len() ==> #[trigger] t.cpus[c].affinity_info == AffinityInfo::On;
        let allowed = match mode {
            SuspendMode::PlatformCoordinated => last,
            SuspendMode::OsInitiated => all_on || last,
        };
        if !has_feature(P::spec_features(), FEATURE_OS_INITIATED_MODE) {
            Err(ErrorCode::NotSupported)
        } else if self.spec_suspend_mode() == mode || allowed {
            Ok(0)
        } else {
            Err(ErrorCode::Denied)
        }
    }

    /// Handles PSCI_SET_SUSPEND_MODE for the calling CPU. Setting the current mode succeeds at
    /// once; platform-coordinated mode may only be entered by the last CPU on, OS-initiated mode
    /// while all CPUs are on or by the last CPU on.
    pub fn set_suspend_mode(&mut self, caller: CpuCaller, mode: SuspendMode) -> (r: Result<u64, ErrorCode>)
        requires
            old(self).wf(),
            old(self).is_running(caller.cpu_index as int),
        ensures
            final(self).wf(),
            final(self).tree() == old(self).tree(),
            r == old(self).set_suspend_mode_result(caller.cpu_index as int, mode),
            final(self).spec_suspend_mode() == (if r is Ok { mode } else { old(self).spec_suspend_mode() }),
    {
        if !contains_feature(P::features(), FEATURE_OS_INITIATED_MODE) {
            return Err(ErrorCode::NotSupported);
        }
        if self.suspend_mode == mode {
            return Ok(0);
        }
        match mode {
            SuspendMode::PlatformCoordinated => {
                if !self.power_domain_tree.is_last_cpu(caller.cpu_index) {
                    return Err(ErrorCode::Denied);
                }
            },
            SuspendMode::OsInitiated => {
                if !(self.power_domain_tree.are_all_cpus_on() || self.power_domain_tree.is_last_cpu(caller.cpu_index)) {
                    return Err(ErrorCode::Denied);
                }
            },
        }
        self.suspend_mode = mode;
        Ok(0)
    }

    /// Handles SYSTEM_OFF: forwards the call to the SPM; the caller turns the system off.
    pub fn system_off<M: PsciSpmInterface>(&self, spm: &M) -> (r: PsciAction<P::PlatformPowerState>)
        ensures
            r is SystemOff,
    {
        forward_to_spm(spm, &PsciCall::SystemOff);
        PsciAction::SystemOff
    }

    /// Handles SYSTEM_RESET: forwards the call to the SPM; the caller resets the system.
    pub fn system_reset<M: PsciSpmInterface>(&self, spm: &M) -> (r: PsciAction<P::PlatformPowerState>)
        ensures
            r is SystemReset,
    {
        forward_to_spm(spm, &PsciCall::SystemReset);
        PsciAction::SystemReset
    }

    /// Handles SYSTEM_OFF2, where the platform supports it: forwards the call to the SPM and
    /// suspends the system to disk; does not return on success.
    pub fn system_off2<M: PsciSpmInterface>(&self, spm: &M, off_type: SystemOff2Type, cookie: Cookie) -> (r: Result<(), ErrorCode>)
        ensures
            !has_feature(P::spec_features(), FEATURE_SYSTEM_OFF2) ==> r == Err::<(), ErrorCode>(ErrorCode::NotSupported),
    {
        if !contains_feature(P::features(), FEATURE_SYSTEM_OFF2) {
            return Err(ErrorCode::NotSupported);
        }
        forward_to_spm(spm, &PsciCall::SystemOff2 { off_type, cookie });
        self.platform.system_off2(off_type, cookie)
    }

    /// Handles SYSTEM_RESET2, where the platform supports it: forwards the call to the SPM and
    /// performs the reset; does not return on success.
    pub fn system_reset2<M: PsciSpmInterface>(&self, spm: &M, reset_type: ResetType, cookie: Cookie) -> (r: Result<(), ErrorCode>)
        ensures
            !has_feature(P::spec_features(), FEATURE_SYSTEM_RESET2) ==> r == Err::<(), ErrorCode>(ErrorCode::NotSupported),
    {
        if !contains_feature(P::features(), FEATURE_SYSTEM_RESET2) {
            return Err(ErrorCode::NotSupported);
        }
        forward_to_spm(spm, &PsciCall::SystemReset2 { reset_type, cookie });
        self.platform.system_reset2(reset_type, cookie)
    }

    /// Handles MEM_PROTECT, where the platform supports it: returns the previous state.
    pub fn mem_protect(&self, enabled: bool) -> (r: Result<bool, ErrorCode>)
        ensures
            !has_feature(P::spec_features(), FEATURE_MEM_PROTECT) ==> r == Err::<bool, ErrorCode>(ErrorCode::NotSupported),
    {
        if !contains_feature(P::features(), FEATURE_MEM_PROTECT) {
            return Err(ErrorCode::NotSupported);
        }
        self.platform.mem_protect(enabled)
    }

    /// Handles MEM_PROTECT_CHECK_RANGE, where the platform supports it.
    pub fn mem_protect_check_range(&self, range: MemProtectRange) -> (r: Result<(), ErrorCode>)
        ensures
            !has_feature(P::spec_features(), FEATURE_MEM_PROTECT_CHECK_RANGE) ==> r == Err::<(), ErrorCode>(ErrorCode::NotSupported),
    {
        if !contains_feature(P::features(), FEATURE_MEM_PROTECT_CHECK_RANGE) {
            return Err(ErrorCode::NotSupported);
        }
        self.platform.mem_protect_check_range(range)
    }

    /// Handles PSCI_FEATURES for this platform.
    pub fn handle_features(&self, feature: PsciFeature) -> (r: Result<u64, ErrorCode>)
        ensures
            r == features_result(feature, P::spec_features()),
    {
        handle_features(feature, P::features())
    }

    /// Handles CPU_FREEZE, where the platform supports it: the caller freezes the CPU.
    pub fn cpu_freeze(&self) -> (r: (Result<(), ErrorCode>, PsciAction<P::PlatformPowerState>))
        ensures
            has_feature(P::spec_features(), FEATURE_CPU_FREEZE) ==> r.0 is Ok && r.1 is CpuFreeze,
            !has_feature(P::spec_features(), FEATURE_CPU_FREEZE) ==> r.0 == Err::<(), ErrorCode>(ErrorCode::NotSupported) && r.1 is Return,
    {
        if !contains_feature(P::features(), FEATURE_CPU_FREEZE) {
            return (Err(ErrorCode::NotSupported), PsciAction::Return);
        }
        (Ok(()), PsciAction::CpuFreeze)
    }

    /// Handles CPU_DEFAULT_SUSPEND, where the platform supports it: suspends the calling CPU to
    /// the platform's default power state, as [`Psci::cpu_suspend`] does.
    pub fn cpu_default_suspend<M: PsciSpmInterface>(&mut self, caller: CpuCaller, spm: &M, entry: EntryPoint)
        -> (r: (Result<(), ErrorCode>, PsciAction<P::PlatformPowerState>))
        requires
            old(self).wf(),
            old(self).is_running(caller.cpu_index as int),
        ensures
            final(self).wf(),
            final(self).spec_suspend_mode() == old(self).spec_suspend_mode(),
            final(self).tree().cpus.len() == old(self).tree().cpus.len(),
            forall|c: int| 0 <= c < old(self).tree().cpus.len() && c != caller.cpu_index ==>
                #[trigger] final(self).tree().cpus[c] == old(self).tree().cpus[c],
            !has_feature(P::spec_features(), FEATURE_CPU_DEFAULT_SUSPEND) ==> r.0 == Err::<(), ErrorCode>(ErrorCode::NotSupported),
            r.0 is Err ==> r.1 is Return && final(self).tree() == old(self).tree(),
            r.1 is Return ==> final(self).is_running(caller.cpu_index as int),
            r.1 is StandbyWfi ==> final(self).is_running(caller.cpu_index as int),
            r.1 is SuspendPowerDown ==> final(self).tree().cpus[caller.cpu_index as int].entry_point == Some(entry),
            !(r.1 is CpuOffPowerDown || r.1 is SystemOff || r.1 is SystemReset || r.1 is CpuFreeze),
    {
        if !contains_feature(P::features(), FEATURE_CPU_DEFAULT_SUSPEND) {
            return (Err(ErrorCode::NotSupported), PsciAction::Return);
        }
        let power_state = self.platform.cpu_default_suspend_power_state();
        self.cpu_suspend(caller, spm, power_state, entry)
    }

    /// Handles NODE_HW_STATE, where the platform supports it: the hardware state of the power
    /// domain of `target_cpu` at `power_level`, which must be a valid CPU and level.
    pub fn node_hw_state<PL: Platform>(&self, caller: CpuCaller, target_cpu: Mpidr, power_level: u32) -> (r: Result<HwState, ErrorCode>)
        ensures
            !has_feature(P::spec_features(), FEATURE_NODE_HW_STATE) ==> r == Err::<HwState, ErrorCode>(ErrorCode::NotSupported),
            has_feature(P::spec_features(), FEATURE_NODE_HW_STATE) && (spec_cpu_index_of::<PL>(target_cpu, caller.mpidr_el1) is None
                || power_level > P::spec_max_power_level()) ==> r == Err::<HwState, ErrorCode>(ErrorCode::InvalidParameters),
    {
        if !contains_feature(P::features(), FEATURE_NODE_HW_STATE) {
            return Err(ErrorCode::NotSupported);
        }
        if try_get_cpu_index_by_mpidr::<PL>(target_cpu, caller.mpidr_el1).is_none()
            || power_level as usize > P::max_power_level() {
            return Err(ErrorCode::InvalidParameters);
        }
        self.platform.node_hw_state(target_cpu, power_level)
    }

    /// Returns whether PSCI handles `function`: the fast calls of the standard secure service
    /// with a function number up to 0x1F.
    pub fn owns(&self, function: FunctionId) -> (r: bool)
        ensures
            r == crate::services::owns_range(function.0, OEN_STANDARD_SECURE, FUNCTION_NUMBER_MIN, FUNCTION_NUMBER_MAX),
    {
        function_in_range(function, OEN_STANDARD_SECURE, FUNCTION_NUMBER_MIN, FUNCTION_NUMBER_MAX)
    }
}

/// The registers x0-x3 of a PSCI SMC, with the SVE hint bit of the function identifier cleared.
pub open spec fn psci_call_regs(regs: Seq<u64>) -> Seq<u64> {
    seq![(((regs[0] as u32) & !crate::smccc::SVE_HINT_BIT) as u64), regs[1], regs[2], regs[3]]
}

/// The result of a call that returns nothing on success, as the value zero.
fn zero_on_success(result: Result<(), ErrorCode>) -> (r: Result<u64, ErrorCode>)
    ensures
        match result {
            Ok(()) => r == Ok::<u64, ErrorCode>(0),
            Err(e) => r == Err::<u64, ErrorCode>(e),
        },
{
    match result {
        Ok(()) => Ok(0),
        Err(e) => Err(e),
    }
}

impl<P: PsciPlatformInterface> Psci<P> {
    /// What a PSCI call from `caller`, given by the registers x0-x3 of the SMC, does from `before`
    /// to `after`, with result `res` and the action `action` left to do on the hardware.
    pub open spec fn smc_inner_effect<PL: Platform>(
        before: Self,
        after: Self,
        caller: CpuCaller,
        regs: Seq<u64>,
        res: Result<u64, ErrorCode>,
        action: PsciAction<P::PlatformPowerState>,
    ) -> bool {
        match abi::spec_decode(regs) {
            Err(e) => res == Err::<u64, ErrorCode>(e) && action is Return && after.tree() == before.tree(),
            Ok(PsciCall::Version) => res == Ok::<u64, ErrorCode>(PSCI_VERSION_1_3) && action is Return && after == before,
            Ok(PsciCall::Features { psci_func_id }) => res == features_result(psci_func_id, P::spec_features())
                && action is Return && after == before,
            Ok(PsciCall::MigrateInfoType) => res == Ok::<u64, ErrorCode>(abi::MIGRATE_INFO_TYPE_NOT_REQUIRED)
                && action is Return && after == before,
            Ok(PsciCall::Migrate { .. }) | Ok(PsciCall::MigrateInfoUpCpu { .. }) | Ok(PsciCall::StatResidency { .. })
            | Ok(PsciCall::StatCount { .. }) => res == Err::<u64, ErrorCode>(ErrorCode::NotSupported) && action is Return
                && after == before,
            Ok(PsciCall::AffinityInfo { mpidr, lowest_affinity_level }) => action is Return && after == before && res == (match spec_cpu_index_of::<PL>(mpidr, caller.mpidr_el1) {
                Some(i) if i < before.tree().cpus.len() => if lowest_affinity_level > 0 {
                    Err(ErrorCode::InvalidParameters)
                } else {
                    Ok(before.tree().cpus[i as int].affinity_info.spec_value() as u64)
                },
                _ => Err(ErrorCode::InvalidParameters),
            }),
            Ok(PsciCall::SystemOff) => res == Ok::<u64, ErrorCode>(0) && action is SystemOff && after == before,
            Ok(PsciCall::SystemReset) => res == Ok::<u64, ErrorCode>(0) && action is SystemReset && after == before,
            Ok(PsciCall::CpuOn { target_cpu, entry }) => action is Return && match res {
                Ok(v) => v == 0 && Self::cpu_on_effect::<PL>(before, after, caller, target_cpu, entry, Ok(())),
                Err(e) => Self::cpu_on_effect::<PL>(before, after, caller, target_cpu, entry, Err(e)),
            },
            Ok(PsciCall::SetSuspendMode { mode }) => {
                &&& action is Return
                &&& res == before.set_suspend_mode_result(caller.cpu_index as int, mode)
                &&& after.spec_suspend_mode() == (if res is Ok { mode } else { before.spec_suspend_mode() })
            },
            Ok(PsciCall::CpuOff) => {
                &&& res is Err ==> action is Return && after.tree() == before.tree()
                &&& res is Ok ==> res == Ok::<u64, ErrorCode>(0) && action is CpuOffPowerDown
                    && after.tree().cpus[caller.cpu_index as int].affinity_info == AffinityInfo::Off
                    && Self::cpu_off_coordinated(before, after, caller.cpu_index as int, action)
            },
            Ok(PsciCall::CpuSuspend { state, entry }) => {
                &&& res == (if P::spec_parse_power_state(state) is None {
                    Err::<u64, ErrorCode>(ErrorCode::InvalidParameters)
                } else if state is PowerDown && !before.spec_platform().spec_is_valid_ns_entrypoint(entry) {
                    Err::<u64, ErrorCode>(ErrorCode::InvalidAddress)
                } else {
                    Ok::<u64, ErrorCode>(0)
                })
                &&& res is Err ==> action is Return && after.tree() == before.tree()
                &&& res is Ok ==> res == Ok::<u64, ErrorCode>(0)
                &&& action is SuspendPowerDown ==> state is PowerDown
                    && after.tree().cpus[caller.cpu_index as int].entry_point == Some(entry)
                &&& !(action is Return) ==> (P::spec_parse_power_state(state) matches Some(states)
                    && (highest_non_run(states) matches Some(level) && Self::suspend_entered(
                    before,
                    after,
                    caller.cpu_index as int,
                    level as nat,
                    states,
                    entry,
                    state is PowerDown,
                    action,
                )))
            },
            Ok(PsciCall::SystemSuspend { entry }) => {
                &&& !has_feature(P::spec_features(), FEATURE_SYSTEM_SUSPEND) ==> res == Err::<u64, ErrorCode>(ErrorCode::NotSupported)
                &&& has_feature(P::spec_features(), FEATURE_SYSTEM_SUSPEND) && !(forall|c: int| 0 <= c < before.tree().cpus.len()
                    && c != caller.cpu_index ==> #[trigger] before.tree().cpus[c].affinity_info == AffinityInfo::Off)
                    ==> res == Err::<u64, ErrorCode>(ErrorCode::Denied)
                &&& has_feature(P::spec_features(), FEATURE_SYSTEM_SUSPEND) && (forall|c: int| 0 <= c < before.tree().cpus.len()
                    && c != caller.cpu_index ==> #[trigger] before.tree().cpus[c].affinity_info == AffinityInfo::Off)
                    && !before.spec_platform().spec_is_valid_ns_entrypoint(entry) ==> res == Err::<u64, ErrorCode>(ErrorCode::InvalidAddress)
                &&& res is Err ==> action is Return && after.tree() == before.tree()
                &&& res is Ok ==> res == Ok::<u64, ErrorCode>(0)
                &&& action is SuspendPowerDown ==> after.tree().cpus[caller.cpu_index as int].entry_point == Some(entry)
                &&& !(action is Return) ==> exists|states: Seq<P::PlatformPowerState>| #[trigger] Self::suspend_entered(
                    before,
                    after,
                    caller.cpu_index as int,
                    P::spec_max_power_level(),
                    states,
                    entry,
                    true,
                    action,
                )
            },
            Ok(PsciCall::SystemOff2 { .. }) => action is Return && after == before && (!has_feature(P::spec_features(), FEATURE_SYSTEM_OFF2)
                ==> res == Err::<u64, ErrorCode>(ErrorCode::NotSupported)),
            Ok(PsciCall::SystemReset2 { .. }) => action is Return && after == before && (!has_feature(P::spec_features(), FEATURE_SYSTEM_RESET2)
                ==> res == Err::<u64, ErrorCode>(ErrorCode::NotSupported)),
            Ok(PsciCall::MemProtect { .. }) => action is Return && after == before && (!has_feature(P::spec_features(), FEATURE_MEM_PROTECT)
                ==> res == Err::<u64, ErrorCode>(ErrorCode::NotSupported)),
            Ok(PsciCall::MemProtectCheckRange { .. }) => action is Return && after == before && (!has_feature(
                P::spec_features(),
                FEATURE_MEM_PROTECT_CHECK_RANGE,
            ) ==> res == Err::<u64, ErrorCode>(ErrorCode::NotSupported)),
            Ok(PsciCall::CpuFreeze) => if has_feature(P::spec_features(), FEATURE_CPU_FREEZE) {
                res == Ok::<u64, ErrorCode>(0) && action is CpuFreeze
            } else {
                res == Err::<u64, ErrorCode>(ErrorCode::NotSupported) && action is Return
            },
            Ok(PsciCall::CpuDefaultSuspend { .. }) => !has_feature(P::spec_features(), FEATURE_CPU_DEFAULT_SUSPEND)
                ==> res == Err::<u64, ErrorCode>(ErrorCode::NotSupported) && action is Return,
            Ok(PsciCall::NodeHwState { target_cpu, power_level }) => action is Return && after == before && (if !has_feature(
                P::spec_features(),
                FEATURE_NODE_HW_STATE,
            ) {
                res == Err::<u64, ErrorCode>(ErrorCode::NotSupported)
            } else if spec_cpu_index_of::<PL>(target_cpu, caller.mpidr_el1) is None || power_level
                > P::spec_max_power_level() {
                res == Err::<u64, ErrorCode>(ErrorCode::InvalidParameters)
            } else {
                true
            }),
        }
    }

    /// Handles a PSCI call from the calling CPU, given by the registers x0-x3 of the SMC, and
    /// returns its result and what is left to do on the hardware. Calls that do not decode
    /// return the decoding error; migration and the statistics functions are not supported.
    pub fn handle_smc_inner<PL: Platform, M: PsciSpmInterface>(&mut self, caller: CpuCaller, spm: &M, regs: &[u64; 4])
        -> (r: (Result<u64, ErrorCode>, PsciAction<P::PlatformPowerState>))
        requires
            old(self).wf(),
            old(self).is_running(caller.cpu_index as int),
        ensures
            final(self).wf(),
            final(self).tree().cpus.len() == old(self).tree().cpus.len(),
            (r.1 is Return || r.1 is StandbyWfi) ==> final(self).is_running(caller.cpu_index as int),
            r.1 is SuspendPowerDown ==> final(self).can_boot(caller.cpu_index as int),
            Self::smc_inner_effect::<PL>(*old(self), *final(self), caller, regs@, r.0, r.1),
    {
        let call = match decode_call(regs) {
            Ok(call) => call,
            Err(error) => return (Err(error), PsciAction::Return),
        };
        match call {
            PsciCall::Version => (Ok(PSCI_VERSION_1_3), PsciAction::Return),
            PsciCall::CpuSuspend { state, entry } => {
                proof {
                    let v = regs@[1] as u32;
                    assert(v & abi::POWER_STATE_ID_MASK <= abi::POWER_STATE_ID_MASK) by (bit_vector);
                }
                let (result, action) = self.cpu_suspend(caller, spm, state, entry);
                (zero_on_success(result), action)
            },
            PsciCall::CpuOff => {
                let (result, action) = self.cpu_off(caller, spm);
                (zero_on_success(result), action)
            },
            PsciCall::CpuOn { target_cpu, entry } => {
                let result = self.cpu_on::<PL>(caller, target_cpu, entry);
                (zero_on_success(result), PsciAction::Return)
            },
            PsciCall::AffinityInfo { mpidr, lowest_affinity_level } => {
                match self.affinity_info::<PL>(caller, mpidr, lowest_affinity_level) {
                    Ok(info) => (Ok(info.value() as u64), PsciAction::Return),
                    Err(error) => (Err(error), PsciAction::Return),
                }
            },
            PsciCall::Migrate { .. } => (Err(ErrorCode::NotSupported), PsciAction::Return),
            PsciCall::MigrateInfoType => (Ok(abi::MIGRATE_INFO_TYPE_NOT_REQUIRED), PsciAction::Return),
            PsciCall::MigrateInfoUpCpu { .. } => (Err(ErrorCode::NotSupported), PsciAction::Return),
            PsciCall::SystemOff => (Ok(0), self.system_off(spm)),
            PsciCall::SystemOff2 { off_type, cookie } => {
                let result = self.system_off2(spm, off_type, cookie);
                (zero_on_success(result), PsciAction::Return)
            },
            PsciCall::SystemReset => (Ok(0), self.system_reset(spm)),
            PsciCall::SystemReset2 { reset_type, cookie } => {
                let result = self.system_reset2(spm, reset_type, cookie);
                (zero_on_success(result), PsciAction::Return)
            },
            PsciCall::MemProtect { enabled } => {
                match self.mem_protect(enabled) {
                    Ok(previous) => (Ok(if previous { 1 } else { 0 }), PsciAction::Return),
                    Err(error) => (Err(error), PsciAction::Return),
                }
            },
            PsciCall::MemProtectCheckRange { range } => {
                let result = self.mem_protect_check_range(range);
                (zero_on_success(result), PsciAction::Return)
            },
            PsciCall::Features { psci_func_id } => (self.handle_features(psci_func_id), PsciAction::Return),
            PsciCall::CpuFreeze => {
                let (result, action) = self.cpu_freeze();
                match result {
                    Ok(()) => (Ok(0), action),
                    Err(error) => (Err(error), action),
                }
            },
            PsciCall::CpuDefaultSuspend { entry } => {
                let (result, action) = self.cpu_default_suspend(caller, spm, entry);
                (zero_on_success(result), action)
            },
            PsciCall::NodeHwState { target_cpu, power_level } => {
                match self.node_hw_state::<PL>(caller, target_cpu, power_level) {
                    Ok(state) => (Ok(state.value() as u64), PsciAction::Return),
                    Err(error) => (Err(error), PsciAction::Return),
                }
            },
            PsciCall::SystemSuspend { entry } => {
                let (result, action) = self.system_suspend(caller, spm, entry);
                (zero_on_success(result), action)
            },
            PsciCall::SetSuspendMode { mode } => (self.set_suspend_mode(caller, mode), PsciAction::Return),
            PsciCall::StatResidency { .. } => (Err(ErrorCode::NotSupported), PsciAction::Return),
            PsciCall::StatCount { .. } => (Err(ErrorCode::NotSupported), PsciAction::Return),
        }
    }

    /// Handles a PSCI SMC from the non-secure world on the calling CPU: the SVE hint bit of the
    /// function identifier is disregarded, and the result is returned in x0, an error as its
    /// code sign-extended.
    pub fn handle_non_secure_smc<PL: Platform, M: PsciSpmInterface>(&mut self, caller: CpuCaller, spm: &M, regs: &[u64; 18])
        -> (r: (SmcReturn, PsciAction<P::PlatformPowerState>))
        requires
            old(self).wf(),
            old(self).is_running(caller.cpu_index as int),
        ensures
            final(self).wf(),
            (r.1 is Return || r.1 is StandbyWfi) ==> final(self).is_running(caller.cpu_index as int),
            r.1 is SuspendPowerDown ==> final(self).can_boot(caller.cpu_index as int),
            r.0.wf(),
            r.0@.len() == 1,
            exists|res: Result<u64, ErrorCode>|
                #[trigger] Self::smc_inner_effect::<PL>(
                    *old(self),
                    *final(self),
                    caller,
                    psci_call_regs(regs@),
                    res,
                    r.1,
                ) && r.0@[0] == result_reg(res),
    {
        let mut function = FunctionId(regs[0] as u32);
        function.clear_sve_hint();
        let in_regs: [u64; 4] = [function.0 as u64, regs[1], regs[2], regs[3]];
        proof {
            assert(in_regs@ =~= psci_call_regs(regs@));
        }
        let (result, action) = self.handle_smc_inner::<PL, M>(caller, spm, &in_regs);
        let value = match result {
            Ok(value) => value,
            Err(error) => error.code() as u64,
        };
        (SmcReturn::from_u64(value), action)
    }
}

/// The states of `len` levels of which the lowest `n` are in state `low` and the others in
/// state `high`.
pub open spec fn prefix_states<S>(len: nat, n: nat, low: S, high: S) -> Seq<S> {
    Seq::new(len, |i: int| if i < n { low } else { high })
}

/// A composite state whose lowest `n` levels are in one state that is not running, and whose
/// other levels run, is a valid suspend request, for a power down state exactly if that state
/// powers down; its highest affected level is `n - 1`.
pub proof fn lemma_prefix_states<S: PlatformPowerStateInterface>(len: nat, n: nat, low: S)
    requires
        0 < n <= len,
        low.spec_type() != PowerStateType::Run,
    ensures
        highest_non_run(prefix_states(len, n, low, S::spec_run())) == Some(n - 1),
        highest_power_down(prefix_states(len, n, low, S::spec_run())) == if low.spec_type() == PowerStateType::PowerDown {
            Some(n - 1)
        } else {
            None::<int>
        },
        is_valid_suspend(prefix_states(len, n, low, S::spec_run()), low.spec_type() == PowerStateType::PowerDown),
    decreases len,
{
    let s = prefix_states(len, n, low, S::spec_run());
    S::lemma_power_state_order(low, low);
    assert(s.last() == if len > n { S::spec_run() } else { low });
    if len > n {
        lemma_prefix_states((len - 1) as nat, n, low);
        assert(s.drop_last() =~= prefix_states((len - 1) as nat, n, low, S::spec_run()));
    } else if n > 1 {
        lemma_prefix_states((len - 1) as nat, (n - 1) as nat, low);
        assert(s.drop_last() =~= prefix_states((len - 1) as nat, (n - 1) as nat, low, S::spec_run()));
        if low.spec_type() != PowerStateType::PowerDown {
            assert(highest_power_down(s) == highest_power_down(s.drop_last()));
        }
    } else {
        assert(s.drop_last() =~= Seq::<S>::empty());
        assert(highest_power_down(s.drop_last()) is None);
    }
    assert forall|i: int, j: int| 0 <= i <= j < s.len() implies #[trigger] s[i].spec_depth() >= #[trigger] s[j].spec_depth() by {
        S::lemma_power_state_order(s[j], s[i]);
    }
}

impl<S: PlatformPowerStateInterface> PsciCompositePowerState<S> {
    /// The state of levels 0 to `max_power_level`: `low` for the lowest `n` levels, running for
    /// the others.
    pub fn with_lower_levels(max_power_level: usize, n: usize, low: S) -> (r: Self)
        requires
            max_power_level < usize::MAX,
        ensures
            r.states@ == prefix_states((max_power_level + 1) as nat, n as nat, low, S::spec_run()),
    {
        let run = S::run();
        let mut states: Vec<S> = Vec::new();
        let mut i: usize = 0;
        while i <= max_power_level
            invariant
                max_power_level < usize::MAX,
                i <= max_power_level + 1,
                run == S::spec_run(),
                states@ == prefix_states(i as nat, n as nat, low, S::spec_run()),
            decreases max_power_level + 1 - i,
        {
            if i < n {
                states.push(low);
            } else {
                states.push(run);
            }
            i = i + 1;
            proof { assert(states@ =~= prefix_states(i as nat, n as nat, low, S::spec_run())); }
        }
        PsciCompositePowerState { states }
    }
}

} // verus!
