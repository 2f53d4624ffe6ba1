use vstd::prelude::*;

verus! {

// ---- Canyon scenery ----------------------------------------------------------

/// What the canyon scenery needs this frame.
#[derive(Clone, Copy, Debug, PartialEq, Eq, Structural)]
pub enum CanyonAction {
    /// Place the red-rock pillars.
    Spawn,
    /// Remove every pillar.
    Despawn,
    Nothing,
}

/// Whether the canyon pillars currently stand.
#[derive(Clone, Copy, Debug, PartialEq, Eq, Structural)]
pub struct CanyonState {
    pub spawned: bool,
}

pub open spec fn spec_canyon_action(in_canyon: bool, spawned: bool) -> CanyonAction {
    if in_canyon && !spawned {
        CanyonAction::Spawn
    } else if !in_canyon && spawned {
        CanyonAction::Despawn
    } else {
        CanyonAction::Nothing
    }
}

impl CanyonState {
    pub fn new() -> (r: CanyonState)
        ensures
            !r.spawned,
    {
        CanyonState { spawned: false }
    }

    /// Pillars are placed on entering the canyon map and removed on
    /// leaving it; afterwards they stand exactly while the canyon is active.
    pub fn step(&mut self, in_canyon: bool) -> (a: CanyonAction)
        ensures
            a == spec_canyon_action(in_canyon, old(self).spawned),
            final(self).spawned == in_canyon,
    {
        if in_canyon && !self.spawned {
            self.spawned = true;
            CanyonAction::Spawn
        } else if !in_canyon && self.spawned {
            self.spawned = false;
            CanyonAction::Despawn
        } else {
            CanyonAction::Nothing
        }
    }
}

/// The canyon's pillar clusters, and pillars per cluster.
pub const CANYON_CLUSTERS: u32 = 4;
pub const PILLARS_PER_CLUSTER: u32 = 6;

/// The seed of pillar `pi` of cluster `ci`.
pub fn pillar_seed(ci: u32, pi: u32) -> (r: u32)
    requires
        ci < CANYON_CLUSTERS,
        pi < PILLARS_PER_CLUSTER,
    ensures
        r == ci * 1000 + pi,
{
    ci * 1000 + pi
}

/// Two different pillars never share a seed.
pub proof fn lemma_pillar_seeds_distinct(c1: u32, p1: u32, c2: u32, p2: u32)
    requires
        c1 < CANYON_CLUSTERS,
        c2 < CANYON_CLUSTERS,
        p1 < PILLARS_PER_CLUSTER,
        p2 < PILLARS_PER_CLUSTER,
        c1 != c2 || p1 != p2,
    ensures
        c1 * 1000 + p1 != c2 * 1000 + p2,
{
}

// ---- Race path ---------------------------------------------------------------

/// Where an entity is on the looped race path.
#[derive(Clone, Copy, Debug, PartialEq, Eq, Structural)]
pub struct PathFollower {
    pub current_idx: usize,
    pub lap: u32,
}

impl PathFollower {
    pub fn new() -> (r: PathFollower)
        ensures
            r == (PathFollower { current_idx: 0, lap: 0 }),
    {
        PathFollower { current_idx: 0, lap: 0 }
    }

    /// One frame on a path of `waypoints` points: when the entity is closer
    /// to the next waypoint than to the current one it moves on, and
    /// wrapping back to the first waypoint completes a lap. Paths of fewer
    /// than two points are not followed.
    pub fn advance(&mut self, waypoints: usize, closer_to_next: bool)
        requires
            waypoints >= 2 ==> old(self).current_idx < waypoints,
            old(self).lap < u32::MAX,
        ensures
            waypoints < 2 || !closer_to_next ==> *final(self) == *old(self),
            waypoints >= 2 && closer_to_next ==> {
                &&& final(self).current_idx == (old(self).current_idx + 1) % (waypoints as int)
                &&& final(self).lap == if final(self).current_idx == 0 { old(self).lap + 1 } else { old(self).lap as int }
            },
            waypoints >= 2 ==> final(self).current_idx < waypoints,
    {
        if waypoints < 2 {
            return;
        }
        let next_idx = (self.current_idx + 1) % waypoints;
        if closer_to_next {
            self.current_idx = next_idx;
            if next_idx == 0 {
                self.lap = self.lap + 1;
            }
        }
    }
}

// ---- Campfire puffs ----------------------------------------------------------

/// At most this many flame puffs exist at once.
pub const MAX_PUFFS: usize = 60;

/// Live flame puffs, oldest first, by entity id.
pub struct PuffQueue {
    pub ids: std::collections::VecDeque<u64>,
}

impl PuffQueue {
    pub open spec fn view_ids(&self) -> Seq<u64> {
        self.ids@
    }

    pub fn new() -> (r: PuffQueue)
        ensures
            r.view_ids() == Seq::<u64>::empty(),
    {
        PuffQueue { ids: std::collections::VecDeque::new() }
    }

    /// Records a new puff and evicts the oldest ones beyond the cap.
    /// Returns the evicted ids, oldest first.
    pub fn push_capped(&mut self, id: u64) -> (evicted: Vec<u64>)
        ensures
            ({
                let all = old(self).view_ids().push(id);
                let k = if all.len() > MAX_PUFFS { all.len() - MAX_PUFFS } else { 0 };
                &&& evicted@ == all.subrange(0, k)
                &&& final(self).view_ids() == all.subrange(k, all.len() as int)
            }),
    {
        let ghost all = self.ids@.push(id);
        self.ids.push_back(id);
        let mut evicted: Vec<u64> = Vec::new();
        while self.ids.len() > MAX_PUFFS
            invariant
                evicted@ + self.ids@ == all,
                evicted@.len() <= all.len(),
                evicted@ == all.subrange(0, evicted@.len() as int),
                self.ids@ == all.subrange(evicted@.len() as int, all.len() as int),
                all.len() > MAX_PUFFS ==> evicted@.len() <= all.len() - MAX_PUFFS,
                all.len() <= MAX_PUFFS ==> evicted@.len() == 0,
            decreases self.ids@.len(),
        {
            let oldest = self.ids.pop_front();
            match oldest {
                Some(e) => {
                    evicted.push(e);
                    proof {
                        assert(evicted@ == all.subrange(0, evicted@.len() as int));
                    }
                },
                None => {},
            }
        }
        proof {
            assert(self.ids@ == all.subrange(evicted@.len() as int, all.len() as int));
        }
        evicted
    }

    /// Drops the puffs that burnt out this frame, keeping the others in
    /// order.
    pub fn retain_live(&mut self, expired: &Vec<u64>)
        ensures
            final(self).view_ids() == old(self).view_ids().filter(|e: u64| !expired@.contains(e)),
    {
        let ghost before = self.ids@;
        let mut kept: std::collections::VecDeque<u64> = std::collections::VecDeque::new();
        let n = self.ids.len();
        let mut i: usize = 0;
        while i < n
            invariant
                n == self.ids@.len(),
                self.ids@ == before,
                i <= n,
                kept@ == before.subrange(0, i as int).filter(|e: u64| !expired@.contains(e)),
            decreases n - i,
        {
            let e = self.ids[i];
            let mut dead = false;
            let mut j: usize = 0;
            while j < expired.len()
                invariant
                    j <= expired.len(),
                    dead == exists|k: int| 0 <= k < j && expired@[k] == e,
                decreases expired.len() - j,
            {
                if expired[j] == e {
                    dead = true;
                }
                j = j + 1;
            }
            proof {
                if dead {
                    let k = choose|k: int| 0 <= k < expired@.len() && expired@[k] == e;
                    assert(expired@.contains(e));
                }
                assert(before.subrange(0, i + 1) =~= before.subrange(0, i as int).push(e));
                reveal(Seq::filter);
                assert(before.subrange(0, i + 1).drop_last() =~= before.subrange(0, i as int));
            }
            if !dead {
                kept.push_back(e);
            }
            i = i + 1;
        }
        proof {
            assert(before.subrange(0, n as int) =~= before);
        }
        self.ids = kept;
    }
}

/// However many puffs were queued before, a push leaves at most the cap.
pub proof fn lemma_puff_cap(before: Seq<u64>, id: u64)
    ensures
        ({
            let all = before.push(id);
            let k = if all.len() > MAX_PUFFS { all.len() - MAX_PUFFS } else { 0 };
            all.subrange(k, all.len() as int).len() <= MAX_PUFFS
        }),
{
}

// ---- Compass -----------------------------------------------------------------

/// The compass point for a heading in whole degrees clockwise from north
/// (0 to 360 inclusive).
pub open spec fn spec_compass_label(deg: u32) -> Seq<char> {
    if deg >= 338 && deg <= 360 || deg <= 22 {
        "N"@
    } else if 23 <= deg <= 67 {
        "NE"@
    } else if 68 <= deg <= 112 {
        "E"@
    } else if 113 <= deg <= 157 {
        "SE"@
    } else if 158 <= deg <= 202 {
        "S"@
    } else if 203 <= deg <= 247 {
        "SW"@
    } else if 248 <= deg <= 292 {
        "W"@
    } else {
        "NW"@
    }
}

/// The heading of the middle of a compass point's sector, in degrees
/// clockwise from north (north at 0 and at 360).
pub open spec fn compass_center(label: Seq<char>, deg: int) -> int {
    if label == "N"@ { if deg >= 180 { 360 } else { 0 } }
    else if label == "NE"@ { 45 }
    else if label == "E"@ { 90 }
    else if label == "SE"@ { 135 }
    else if label == "S"@ { 180 }
    else if label == "SW"@ { 225 }
    else if label == "W"@ { 270 }
    else if label == "NW"@ { 315 }
    else { -1000 }
}

/// The compass label names the nearest of the eight points: every heading
/// from 0 to 360 degrees lies within 22 degrees of the middle of its
/// label's sector (and the middles are 45 degrees apart, so no other point
/// is as near).
pub proof fn lemma_compass_nearest(deg: u32)
    requires
        deg <= 360,
    ensures
        -22 <= deg - compass_center(spec_compass_label(deg), deg as int) <= 22,
{
    reveal_strlit("N");
    reveal_strlit("NE");
    reveal_strlit("E");
    reveal_strlit("SE");
    reveal_strlit("S");
    reveal_strlit("SW");
    reveal_strlit("W");
    reveal_strlit("NW");
    let n = "N"@;
    let ne = "NE"@;
    let e = "E"@;
    let se = "SE"@;
    let so = "S"@;
    let sw = "SW"@;
    let w = "W"@;
    let nw = "NW"@;
    assert(ne.len() != n.len() && se.len() != n.len() && sw.len() != n.len() && nw.len() != n.len());
    assert(e[0] != n[0] && so[0] != n[0] && w[0] != n[0]);
    assert(e.len() != ne.len() && so.len() != ne.len() && w.len() != ne.len());
    assert(se[0] != ne[0] && sw[0] != ne[0] && nw[1] != ne[1]);
    assert(so[0] != e[0] && w[0] != e[0]);
    assert(se.len() != e.len() && sw.len() != e.len() && nw.len() != e.len());
    assert(sw[1] != se[1] && nw[0] != se[0]);
    assert(so.len() != se.len() && w.len() != se.len());
    assert(w[0] != so[0] && sw.len() != so.len() && nw.len() != so.len());
    assert(nw[0] != sw[0] && w.len() != sw.len());
    assert(nw.len() != w.len());
}

pub fn compass_label(deg: u32) -> (r: &'static str)
    ensures
        r@ == spec_compass_label(deg),
{
    if deg >= 338 && deg <= 360 || deg <= 22 {
        "N"
    } else if 23 <= deg && deg <= 67 {
        "NE"
    } else if 68 <= deg && deg <= 112 {
        "E"
    } else if 113 <= deg && deg <= 157 {
        "SE"
    } else if 158 <= deg && deg <= 202 {
        "S"
    } else if 203 <= deg && deg <= 247 {
        "SW"
    } else if 248 <= deg && deg <= 292 {
        "W"
    } else {
        "NW"
    }
}

// ---- Tyre decals ---------------------------------------------------------------

/// At most this many tyre decals are kept.
pub const MAX_DECALS: u32 = 600;

/// How many of the first `i` decals (oldest first) the cull removes.
pub open spec fn culled_before(faded: Seq<bool>, i: int, cap: int) -> int
    decreases i, 0int,
{
    if i <= 0 {
        0
    } else {
        culled_before(faded, i - 1, cap) + if culled_at(faded, i - 1, cap) { 1int } else { 0int }
    }
}

/// Whether the cull removes decal `i` (oldest first): a faded decal always
/// goes; a live one goes while the decals not yet removed exceed the cap.
pub open spec fn culled_at(faded: Seq<bool>, i: int, cap: int) -> bool
    decreases i, 1int,
{
    faded[i] || faded.len() - culled_before(faded, i, cap) > cap
}

proof fn lemma_culled_bounds(faded: Seq<bool>, i: int, cap: int)
    requires
        0 <= i <= faded.len(),
    ensures
        0 <= culled_before(faded, i, cap) <= i,
    decreases i,
{
    if i > 0 {
        lemma_culled_bounds(faded, i - 1, cap);
    }
}

proof fn lemma_culled_monotone(faded: Seq<bool>, i: int, j: int, cap: int)
    requires
        0 <= i <= j <= faded.len(),
    ensures
        culled_before(faded, i, cap) <= culled_before(faded, j, cap),
    decreases j - i,
{
    if i < j {
        lemma_culled_monotone(faded, i, j - 1, cap);
    }
}

proof fn lemma_all_culled_upto(faded: Seq<bool>, i: int, cap: int)
    requires
        0 <= i <= faded.len(),
        forall|k: int| 0 <= k < i ==> culled_at(faded, k, cap),
    ensures
        culled_before(faded, i, cap) == i,
    decreases i,
{
    if i > 0 {
        lemma_all_culled_upto(faded, i - 1, cap);
        assert(culled_at(faded, i - 1, cap));
    }
}

/// The cull keeps the cap and the newest decals: every faded decal goes;
/// afterwards at most the cap remain; and when a decal that has not faded
/// is kept, every newer decal that has not faded is kept too (the oldest go
/// first).
pub proof fn lemma_cull_keeps_newest(faded: Seq<bool>, cap: int, i: int, j: int)
    requires
        cap >= 0,
    ensures
        0 <= i < faded.len() && faded[i] ==> culled_at(faded, i, cap),
        faded.len() - culled_before(faded, faded.len() as int, cap) <= cap,
        0 <= i < j < faded.len() && !faded[i] && !faded[j] && !culled_at(faded, i, cap) ==> !culled_at(faded, j, cap),
{
    let n = faded.len() as int;
    lemma_culled_bounds(faded, n, cap);
    if n - culled_before(faded, n, cap) > cap {
        assert forall|k: int| 0 <= k < n implies culled_at(faded, k, cap) by {
            lemma_culled_monotone(faded, k, n, cap);
        }
        lemma_all_culled_upto(faded, n, cap);
    }
    if 0 <= i < j < n {
        lemma_culled_monotone(faded, i, j, cap);
    }
}

/// Which decals to remove this frame, given for each decal (oldest first)
/// whether it has fully faded, and how many remain removed in all.
pub fn cull_decals(faded: &Vec<bool>) -> (r: (Vec<bool>, u32))
    requires
        faded.len() <= u32::MAX,
    ensures
        r.0.len() == faded.len(),
        forall|i: int| 0 <= i < faded.len() ==> r.0@[i] == culled_at(faded@, i, MAX_DECALS as int),
        r.1 == culled_before(faded@, faded.len() as int, MAX_DECALS as int),
{
    let n = faded.len();
    let mut out: Vec<bool> = Vec::new();
    let mut despawned: u32 = 0;
    let mut i: usize = 0;
    while i < n
        invariant
            i <= n,
            n == faded.len(),
            n <= u32::MAX,
            out.len() == i,
            despawned == culled_before(faded@, i as int, MAX_DECALS as int),
            forall|k: int| 0 <= k < i ==> out@[k] == culled_at(faded@, k, MAX_DECALS as int),
        decreases n - i,
    {
        proof {
            lemma_culled_bounds(faded@, i as int, MAX_DECALS as int);
        }
        let live: u32 = (n as u32) - despawned;
        let cull = faded[i] || live > MAX_DECALS;
        proof {
            assert(cull == culled_at(faded@, i as int, MAX_DECALS as int));
        }
        out.push(cull);
        if cull {
            despawned = despawned + 1;
        }
        i = i + 1;
    }
    (out, despawned)
}

// ---- Scenery props -------------------------------------------------------------

/// The graphics tier chosen by the player.
#[derive(Clone, Copy, Debug, PartialEq, Eq, Structural)]
pub enum GraphicsQuality {
    Low,
    Medium,
    High,
}

/// How many props of a set of `full` to place: the set scaled by one half,
/// one, or one and a half for the tier, rounded half up, and at least one.
pub open spec fn spec_prop_count(q: GraphicsQuality, full: int) -> int {
    let n = match q {
        GraphicsQuality::Low => (full + 1) / 2,
        GraphicsQuality::Medium => full,
        GraphicsQuality::High => (3 * full + 1) / 2,
    };
    if n >= 1 { n } else { 1 }
}

/// The prop count grows with the set and with the tier: the low tier
/// places about half the set (never less than half), the medium tier the
/// whole set, the high tier about one and a half times it (never less),
/// each at least one, and a higher tier never places fewer props.
pub proof fn lemma_prop_count_scaling(full: nat, more: nat)
    requires
        full <= more,
    ensures
        2 * spec_prop_count(GraphicsQuality::Low, full as int) >= full,
        2 * spec_prop_count(GraphicsQuality::Low, full as int) <= full + 2,
        full >= 1 ==> spec_prop_count(GraphicsQuality::Medium, full as int) == full,
        2 * spec_prop_count(GraphicsQuality::High, full as int) >= 3 * full,
        2 * spec_prop_count(GraphicsQuality::High, full as int) <= 3 * full + 2,
        spec_prop_count(GraphicsQuality::Low, full as int) <= spec_prop_count(GraphicsQuality::Medium, full as int),
        spec_prop_count(GraphicsQuality::Medium, full as int) <= spec_prop_count(GraphicsQuality::High, full as int),
        spec_prop_count(GraphicsQuality::Low, full as int) <= spec_prop_count(GraphicsQuality::Low, more as int),
        spec_prop_count(GraphicsQuality::High, full as int) <= spec_prop_count(GraphicsQuality::High, more as int),
        spec_prop_count(GraphicsQuality::Low, full as int) >= 1,
{
}

pub fn prop_count(q: GraphicsQuality, full: usize) -> (r: usize)
    requires
        q == GraphicsQuality::High ==> (3 * full + 1) / 2 <= usize::MAX,
    ensures
        r == spec_prop_count(q, full as int),
{
    let n = match q {
        GraphicsQuality::Low => full / 2 + full % 2,
        GraphicsQuality::Medium => full,
        GraphicsQuality::High => full + full / 2 + full % 2,
    };
    if n >= 1 { n } else { 1 }
}

} // verus!
