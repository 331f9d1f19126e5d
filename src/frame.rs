use crate::settings::Display;
use vstd::prelude::*;

verus! {

/// Number of agents handled by one compute workgroup of the simulation kernel.
pub const WORKGROUP_SIZE: u32 = 64;

/// `n / d` rounded up.
pub open spec fn ceil_div(n: int, d: int) -> int {
    (n + d - 1) / d
}

/// Workgroups to dispatch so that every one of `num_agents` agents is
/// updated: `num_agents / WORKGROUP_SIZE`, rounded up.
pub fn workgroup_count(num_agents: u32) -> (r: u32)
    ensures
        r == ceil_div(num_agents as int, WORKGROUP_SIZE as int),
        r * WORKGROUP_SIZE >= num_agents,
        r == 0 || (r - 1) * WORKGROUP_SIZE < num_agents,
{
    let whole = num_agents / WORKGROUP_SIZE;
    if num_agents % WORKGROUP_SIZE == 0 {
        whole
    } else {
        whole + 1
    }
}

/// Size of the trail textures and of the surface: the display resolution,
/// one layer deep.
#[derive(Clone, Copy, Debug, PartialEq, Eq, Structural)]
pub struct Extent {
    pub width: u32,
    pub height: u32,
}

impl Extent {
    /// The extent of a display of the given settings.
    pub fn of_display(display: &Display) -> (r: Extent)
        ensures
            r.width == display.width,
            r.height == display.height,
    {
        Extent { width: display.width, height: display.height }
    }
}

/// The images a pass may read or write.
#[derive(Clone, Copy, Debug, PartialEq, Eq, Structural)]
pub enum Target {
    /// Trail texture sensed and written by the kernel.
    ComputeTexture,
    /// Offscreen texture the render pass draws the trail field into.
    RenderTexture,
    /// The presentable image acquired for the frame.
    Surface,
}

/// One step of a frame, in the order a command sequence records them.
#[derive(Clone, Copy, Debug, PartialEq, Eq, Structural)]
pub enum Pass {
    /// Agent update and trail deposit over the compute texture, with the
    /// parameter block as push constants.
    Compute { workgroups: u32 },
    /// Clears the render texture, then draws a full-screen triangle sampling
    /// the compute texture into it, with the parameter block as push constants.
    Render,
    /// Copies the whole render texture into the compute texture.
    CopyBack { extent: Extent },
    /// Clears the surface image, then draws the render texture onto it.
    Blit,
}

/// The images a pass reads.
pub open spec fn reads(p: Pass) -> Set<Target> {
    match p {
        Pass::Compute { .. } => set![Target::ComputeTexture],
        Pass::Render => set![Target::ComputeTexture],
        Pass::CopyBack { .. } => set![Target::RenderTexture],
        Pass::Blit => set![Target::RenderTexture],
    }
}

/// The images a pass writes.
pub open spec fn writes(p: Pass) -> Set<Target> {
    match p {
        Pass::Compute { .. } => set![Target::ComputeTexture],
        Pass::Render => set![Target::RenderTexture],
        Pass::CopyBack { .. } => set![Target::ComputeTexture],
        Pass::Blit => set![Target::Surface],
    }
}

/// The passes of one frame: compute, render, copy back, blit.
pub open spec fn frame_passes(workgroups: u32, extent: Extent) -> Seq<Pass> {
    seq![Pass::Compute { workgroups }, Pass::Render, Pass::CopyBack { extent }, Pass::Blit]
}

/// Which pass wrote what each image holds: the pass's index in the run, or
/// a negative number for contents from before the run.
pub struct Provenance {
    pub compute: int,
    pub render: int,
    pub surface: int,
}

/// The provenance after pass `p`, at index `i`, ran on images of provenance
/// `s`. A copy passes on what its source holds; every other pass writes new
/// contents.
pub open spec fn apply_pass(s: Provenance, p: Pass, i: int) -> Provenance {
    match p {
        Pass::Compute { .. } => Provenance { compute: i, ..s },
        Pass::Render => Provenance { render: i, ..s },
        Pass::CopyBack { .. } => Provenance { compute: s.render, ..s },
        Pass::Blit => Provenance { surface: i, ..s },
    }
}

/// The provenance after running `ps` in order on images of provenance `s`.
pub open spec fn run_passes(ps: Seq<Pass>, s: Provenance) -> Provenance
    decreases ps.len(),
{
    if ps.len() == 0 {
        s
    } else {
        apply_pass(run_passes(ps.drop_last(), s), ps.last(), ps.len() - 1)
    }
}

/// The host side of the frame loop: the simulation's size and time. Each
/// tick advances the time and gives the passes of the frame.
pub struct FrameOrchestrator {
    num_agents: u32,
    extent: Extent,
    time_nanos: u64,
    delta_nanos: u64,
}

impl FrameOrchestrator {
    pub closed spec fn spec_num_agents(&self) -> u32 {
        self.num_agents
    }

    pub closed spec fn spec_extent(&self) -> Extent {
        self.extent
    }

    /// Simulation time gathered over all ticks, in nanoseconds.
    pub closed spec fn spec_time(&self) -> u64 {
        self.time_nanos
    }

    /// Length of the last tick, in nanoseconds.
    pub closed spec fn spec_delta(&self) -> u64 {
        self.delta_nanos
    }

    /// An orchestrator for `num_agents` agents on a display of the given
    /// settings, at time zero.
    pub fn new(display: &Display, num_agents: u32) -> (r: Self)
        ensures
            r.spec_num_agents() == num_agents,
            r.spec_extent() == (Extent { width: display.width, height: display.height }),
            r.spec_time() == 0,
            r.spec_delta() == 0,
    {
        FrameOrchestrator { num_agents, extent: Extent::of_display(display), time_nanos: 0, delta_nanos: 0 }
    }

    pub fn num_agents(&self) -> (r: u32)
        ensures
            r == self.spec_num_agents(),
    {
        self.num_agents
    }

    pub fn extent(&self) -> (r: Extent)
        ensures
            r == self.spec_extent(),
    {
        self.extent
    }

    pub fn time_nanos(&self) -> (r: u64)
        ensures
            r == self.spec_time(),
    {
        self.time_nanos
    }

    pub fn delta_nanos(&self) -> (r: u64)
        ensures
            r == self.spec_delta(),
    {
        self.delta_nanos
    }

    /// Advances the simulation time by `delta_nanos` and returns the passes
    /// to record for the frame, in order.
    pub fn tick(&mut self, delta_nanos: u64) -> (r: Vec<Pass>)
        requires
            old(self).spec_time() + delta_nanos <= u64::MAX,
        ensures
            final(self).spec_time() == old(self).spec_time() + delta_nanos,
            final(self).spec_delta() == delta_nanos,
            final(self).spec_num_agents() == old(self).spec_num_agents(),
            final(self).spec_extent() == old(self).spec_extent(),
            r@ == frame_passes(
                ceil_div(old(self).spec_num_agents() as int, WORKGROUP_SIZE as int) as u32,
                old(self).spec_extent(),
            ),
    {
        self.time_nanos = self.time_nanos + delta_nanos;
        self.delta_nanos = delta_nanos;
        let workgroups = workgroup_count(self.num_agents);
        let r = vec![
            Pass::Compute { workgroups },
            Pass::Render,
            Pass::CopyBack { extent: self.extent },
            Pass::Blit,
        ];
        assert(r@ =~= frame_passes(workgroups, self.extent));
        r
    }
}

/// Sum of a run of tick lengths.
pub open spec fn sum_deltas(ds: Seq<u64>) -> int
    decreases ds.len(),
{
    if ds.len() == 0 {
        0
    } else {
        sum_deltas(ds.drop_last()) + ds.last()
    }
}

/// Over consecutive ticks of lengths `ds`, starting from a new orchestrator,
/// the time after tick `k` is the sum of the first `k` lengths, and it never
/// decreases.
pub proof fn lemma_time_is_sum_of_deltas(states: Seq<FrameOrchestrator>, ds: Seq<u64>)
    requires
        states.len() == ds.len() + 1,
        states[0].spec_time() == 0,
        forall|k: int| 0 <= k < ds.len() ==> #[trigger] states[k + 1].spec_time() == states[k].spec_time() + ds[k],
    ensures
        forall|k: int| 0 <= k <= ds.len() ==> #[trigger] states[k].spec_time() == sum_deltas(ds.take(k)),
        forall|j: int, k: int|
            0 <= j <= k <= ds.len() ==> #[trigger] states[j].spec_time() <= #[trigger] states[k].spec_time(),
{
    assert forall|k: int| 0 <= k <= ds.len() implies #[trigger] states[k].spec_time() == sum_deltas(ds.take(k)) by {
        lemma_prefix_time(states, ds, k);
    }
    assert forall|j: int, k: int| 0 <= j <= k <= ds.len() implies #[trigger] states[j].spec_time()
        <= #[trigger] states[k].spec_time() by {
        lemma_time_grows(states, ds, j, k);
    }
}

proof fn lemma_prefix_time(states: Seq<FrameOrchestrator>, ds: Seq<u64>, k: int)
    requires
        states.len() == ds.len() + 1,
        states[0].spec_time() == 0,
        forall|i: int| 0 <= i < ds.len() ==> #[trigger] states[i + 1].spec_time() == states[i].spec_time() + ds[i],
        0 <= k <= ds.len(),
    ensures
        states[k].spec_time() == sum_deltas(ds.take(k)),
    decreases k,
{
    if k > 0 {
        lemma_prefix_time(states, ds, k - 1);
        assert(ds.take(k).drop_last() =~= ds.take(k - 1));
        assert(states[(k - 1) + 1].spec_time() == states[k - 1].spec_time() + ds[k - 1]);
    } else {
        assert(ds.take(0).len() == 0);
    }
}

proof fn lemma_time_grows(states: Seq<FrameOrchestrator>, ds: Seq<u64>, j: int, k: int)
    requires
        states.len() == ds.len() + 1,
        forall|i: int| 0 <= i < ds.len() ==> #[trigger] states[i + 1].spec_time() == states[i].spec_time() + ds[i],
        0 <= j <= k <= ds.len(),
    ensures
        states[j].spec_time() <= states[k].spec_time(),
    decreases k - j,
{
    if j < k {
        lemma_time_grows(states, ds, j, k - 1);
        assert(states[(k - 1) + 1].spec_time() == states[k - 1].spec_time() + ds[k - 1]);
    }
}

/// In every frame the copy back runs exactly once, after the render pass and
/// before the blit; apart from the compute pass, whose storage texture is
/// read and written by design, no pass reads an image it writes.
pub proof fn lemma_frame_order(workgroups: u32, extent: Extent)
    ensures
        ({
            let ps = frame_passes(workgroups, extent);
            &&& ps.len() == 4
            &&& ps[1] == Pass::Render
            &&& ps[2] == Pass::CopyBack { extent }
            &&& ps[3] == Pass::Blit
            &&& forall|i: int| 0 <= i < 4 && i != 2 ==> !(#[trigger] ps[i] is CopyBack)
            &&& forall|i: int| 1 <= i < 4 ==> reads(#[trigger] ps[i]).disjoint(writes(ps[i]))
        }),
{
    let ps = frame_passes(workgroups, extent);
    assert forall|i: int| 1 <= i < 4 implies reads(#[trigger] ps[i]).disjoint(writes(ps[i])) by {
        if i == 1 {
            assert(!set![Target::ComputeTexture].contains(Target::RenderTexture));
        } else if i == 2 {
            assert(!set![Target::RenderTexture].contains(Target::ComputeTexture));
        } else {
            assert(!set![Target::RenderTexture].contains(Target::Surface));
        }
    }
}

/// After a frame, the compute texture holds exactly what the render pass of
/// that frame wrote, as the render texture does: the copy back adds no change
/// of its own. The surface holds the blit of that frame.
pub proof fn lemma_copy_back_feeds_next_frame(workgroups: u32, extent: Extent, before: Provenance)
    ensures
        ({
            let ps = frame_passes(workgroups, extent);
            let after = run_passes(ps, before);
            &&& ps[1] == Pass::Render
            &&& after.compute == 1
            &&& after.render == 1
            &&& after.surface == 3
        }),
{
    let ps = frame_passes(workgroups, extent);
    reveal_with_fuel(run_passes, 5);
    assert(ps.drop_last() =~= seq![Pass::Compute { workgroups }, Pass::Render, Pass::CopyBack { extent }]);
    assert(ps.drop_last().drop_last() =~= seq![Pass::Compute { workgroups }, Pass::Render]);
    assert(ps.drop_last().drop_last().drop_last() =~= seq![Pass::Compute { workgroups }]);
    assert(ps.drop_last().drop_last().drop_last().drop_last() =~= Seq::<Pass>::empty());
}

} // verus!
