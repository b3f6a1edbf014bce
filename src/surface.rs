//! Which sides of the player touch ground: the four-sided contact map, the
//! per-side activation delay that suppresses fresh contacts, and the probe
//! regions that the physics service is asked about.
use vstd::prelude::*;

verus! {

/// One of the four axis-aligned sides of the player's collision box.
#[derive(Clone, Copy, Debug, PartialEq, Eq, Hash, Structural)]
pub enum Surface {
    Top,
    Bottom,
    Left,
    Right,
}

impl Surface {
    /// The four sides.
    pub open spec fn all() -> Set<Surface> {
        set![Surface::Top, Surface::Bottom, Surface::Left, Surface::Right]
    }
}

/// A map with exactly the four sides as keys.
pub open spec fn surface_map<V>(top: V, bottom: V, left: V, right: V) -> Map<Surface, V> {
    map![Surface::Top => top, Surface::Bottom => bottom, Surface::Left => left, Surface::Right => right]
}

/// The four-sided map always has exactly the four sides as keys.
pub proof fn lemma_surface_map_domain<V>(top: V, bottom: V, left: V, right: V)
    ensures
        surface_map(top, bottom, left, right).dom() == Surface::all(),
{
    assert(surface_map(top, bottom, left, right).dom() =~= Surface::all());
}

/// For each side, whether it is in contact with ground this step.
///
/// Every side always has a flag: the type holds one field per side.
#[derive(Clone, Copy, Debug, PartialEq, Eq)]
pub struct SurfaceGroundedChecker {
    pub top: bool,
    pub bottom: bool,
    pub left: bool,
    pub right: bool,
}

impl View for SurfaceGroundedChecker {
    type V = Map<Surface, bool>;

    open spec fn view(&self) -> Map<Surface, bool> {
        surface_map(self.top, self.bottom, self.left, self.right)
    }
}

impl SurfaceGroundedChecker {
    /// The checker with `surface` set to `value` and the other sides kept.
    pub open spec fn set_spec(self, surface: Surface, value: bool) -> SurfaceGroundedChecker {
        match surface {
            Surface::Top => SurfaceGroundedChecker { top: value, ..self },
            Surface::Bottom => SurfaceGroundedChecker { bottom: value, ..self },
            Surface::Left => SurfaceGroundedChecker { left: value, ..self },
            Surface::Right => SurfaceGroundedChecker { right: value, ..self },
        }
    }

    /// No side in contact.
    pub fn new() -> (r: SurfaceGroundedChecker)
        ensures
            r == (SurfaceGroundedChecker { top: false, bottom: false, left: false, right: false }),
            r@ == surface_map(false, false, false, false),
    {
        SurfaceGroundedChecker { top: false, bottom: false, left: false, right: false }
    }

    /// Records whether `surface` is in contact.
    pub fn set_surface(&mut self, surface: &Surface, value: bool)
        ensures
            *final(self) == old(self).set_spec(*surface, value),
            final(self)@ == old(self)@.insert(*surface, value),
    {
        match surface {
            Surface::Top => self.top = value,
            Surface::Bottom => self.bottom = value,
            Surface::Left => self.left = value,
            Surface::Right => self.right = value,
        }
        proof {
            assert(final(self)@ =~= old(self)@.insert(*surface, value));
        }
    }

    /// Whether `surface` is in contact with ground.
    pub fn surface_touching_ground(&self, surface: &Surface) -> (r: bool)
        ensures
            r == self@[*surface],
    {
        match surface {
            Surface::Top => self.top,
            Surface::Bottom => self.bottom,
            Surface::Left => self.left,
            Surface::Right => self.right,
        }
    }
}

impl Default for SurfaceGroundedChecker {
    fn default() -> (r: SurfaceGroundedChecker)
        ensures
            r@ == surface_map(false, false, false, false),
    {
        SurfaceGroundedChecker::new()
    }
}

/// Asks that contacts on a side be suppressed for a while from now on.
#[derive(Clone, Copy, Debug, PartialEq, Eq)]
pub struct ActivateGroundedDelay(pub Surface);

/// Some event of `events` names `surface`.
pub open spec fn activates(events: Seq<ActivateGroundedDelay>, surface: Surface) -> bool {
    exists|i: int| 0 <= i < events.len() && (#[trigger] events[i]).0 == surface
}

/// `a + b`, stopping at the largest `u64`.
pub open spec fn saturating_sum(a: u64, b: u64) -> u64 {
    if a + b > u64::MAX {
        u64::MAX
    } else {
        (a + b) as u64
    }
}

/// For each side, the time since its last activation event, in microseconds.
#[derive(Clone, Copy, Debug, PartialEq, Eq)]
pub struct GroundedContactDelay {
    pub top: u64,
    pub bottom: u64,
    pub left: u64,
    pub right: u64,
}

impl View for GroundedContactDelay {
    type V = Map<Surface, u64>;

    open spec fn view(&self) -> Map<Surface, u64> {
        surface_map(self.top, self.bottom, self.left, self.right)
    }
}

impl GroundedContactDelay {
    /// The time of one side after a step of `delta`: zero where an event names
    /// the side, else the old time plus `delta`.
    pub open spec fn side_after(
        elapsed: u64,
        surface: Surface,
        delta: u64,
        events: Seq<ActivateGroundedDelay>,
    ) -> u64 {
        if activates(events, surface) {
            0
        } else {
            saturating_sum(elapsed, delta)
        }
    }

    /// The delays after a step of `delta` with the given activation events.
    pub open spec fn update_spec(
        self,
        delta: u64,
        events: Seq<ActivateGroundedDelay>,
    ) -> GroundedContactDelay {
        GroundedContactDelay {
            top: Self::side_after(self.top, Surface::Top, delta, events),
            bottom: Self::side_after(self.bottom, Surface::Bottom, delta, events),
            left: Self::side_after(self.left, Surface::Left, delta, events),
            right: Self::side_after(self.right, Surface::Right, delta, events),
        }
    }

    /// Every side starts with no time elapsed.
    pub fn new() -> (r: GroundedContactDelay)
        ensures
            r == (GroundedContactDelay { top: 0, bottom: 0, left: 0, right: 0 }),
            r@ == surface_map(0u64, 0u64, 0u64, 0u64),
    {
        GroundedContactDelay { top: 0, bottom: 0, left: 0, right: 0 }
    }

    /// Whether a contact on `surface` counts: more than `grounded_delay` has
    /// passed since the side's last activation.
    pub fn honors(&self, surface: &Surface, grounded_delay: u64) -> (r: bool)
        ensures
            r == (self@[*surface] > grounded_delay),
    {
        let elapsed = match surface {
            Surface::Top => self.top,
            Surface::Bottom => self.bottom,
            Surface::Left => self.left,
            Surface::Right => self.right,
        };
        elapsed > grounded_delay
    }

    /// Adds `delta` to every side, then starts over each side that an event names.
    pub fn update_last_delay_message(&mut self, delta: u64, events: &Vec<ActivateGroundedDelay>)
        ensures
            *final(self) == old(self).update_spec(delta, events@),
    {
        self.top = self.top.saturating_add(delta);
        self.bottom = self.bottom.saturating_add(delta);
        self.left = self.left.saturating_add(delta);
        self.right = self.right.saturating_add(delta);
        let ghost ticked = *self;
        let mut i: usize = 0;
        while i < events.len()
            invariant
                0 <= i <= events.len(),
                ticked == (GroundedContactDelay {
                    top: saturating_sum(old(self).top, delta),
                    bottom: saturating_sum(old(self).bottom, delta),
                    left: saturating_sum(old(self).left, delta),
                    right: saturating_sum(old(self).right, delta),
                }),
                self.top == (if activates(events@.take(i as int), Surface::Top) { 0 } else { ticked.top }),
                self.bottom == (if activates(events@.take(i as int), Surface::Bottom) { 0 } else { ticked.bottom }),
                self.left == (if activates(events@.take(i as int), Surface::Left) { 0 } else { ticked.left }),
                self.right == (if activates(events@.take(i as int), Surface::Right) { 0 } else { ticked.right }),
            decreases events.len() - i,
        {
            let ghost before = events@.take(i as int);
            let surface = events[i].0;
            match surface {
                Surface::Top => self.top = 0,
                Surface::Bottom => self.bottom = 0,
                Surface::Left => self.left = 0,
                Surface::Right => self.right = 0,
            }
            proof {
                let after = events@.take(i + 1);
                assert(after[i as int] == events@[i as int]);
                assert forall|s: Surface| activates(after, s) == (activates(before, s) || s == surface) by {
                    if activates(before, s) {
                        let j = choose|j: int| 0 <= j < before.len() && (#[trigger] before[j]).0 == s;
                        assert(after[j] == before[j]);
                    }
                    if activates(after, s) && !activates(before, s) {
                        let j = choose|j: int| 0 <= j < after.len() && (#[trigger] after[j]).0 == s;
                        if j < i {
                            assert(before[j] == after[j]);
                        }
                    }
                }
            }
            i = i + 1;
        }
        proof {
            assert(events@.take(events@.len() as int) =~= events@);
        }
    }
}

/// The contact flags of a step: a side touches ground where its probe hit
/// ground and the side's activation delay has passed.
pub open spec fn classify_spec(
    probe_hits: SurfaceGroundedChecker,
    delay: GroundedContactDelay,
    grounded_delay: u64,
) -> SurfaceGroundedChecker {
    SurfaceGroundedChecker {
        top: probe_hits.top && delay.top > grounded_delay,
        bottom: probe_hits.bottom && delay.bottom > grounded_delay,
        left: probe_hits.left && delay.left > grounded_delay,
        right: probe_hits.right && delay.right > grounded_delay,
    }
}

/// Keeps the probe hits whose side's activation delay has passed.
pub fn classify_contacts(
    probe_hits: &SurfaceGroundedChecker,
    delay: &GroundedContactDelay,
    grounded_delay: u64,
) -> (r: SurfaceGroundedChecker)
    ensures
        r == classify_spec(*probe_hits, *delay, grounded_delay),
        forall|s: Surface| #[trigger]
            Surface::all().contains(s) ==> r@[s] == (probe_hits@[s] && delay@[s] > grounded_delay),
{
    let mut r = SurfaceGroundedChecker::new();
    r.set_surface(&Surface::Top, probe_hits.top && delay.honors(&Surface::Top, grounded_delay));
    r.set_surface(
        &Surface::Bottom,
        probe_hits.bottom && delay.honors(&Surface::Bottom, grounded_delay),
    );
    r.set_surface(&Surface::Left, probe_hits.left && delay.honors(&Surface::Left, grounded_delay));
    r.set_surface(
        &Surface::Right,
        probe_hits.right && delay.honors(&Surface::Right, grounded_delay),
    );
    r
}

/// The thickness of a probe region (one world unit).
pub const PROBE_THICKNESS: i64 = 1000;

/// How far past the box's edge a probe's centre sits (one world unit).
pub const PROBE_MARGIN: i64 = 1000;

/// The largest side length of a collision box.
pub const MAX_BOX_SIDE: i64 = 1_000_000_000_000;

/// A rectangular probe region: its centre relative to the player's centre,
/// and its full width and height.
#[derive(Clone, Copy, Debug, PartialEq, Eq)]
pub struct SurfaceProbe {
    pub offset_x: i64,
    pub offset_y: i64,
    pub width: i64,
    pub height: i64,
}

/// The probe of `surface` for a box of the given size: a thin strip, five
/// sevenths as long as the side it watches, centred on that side's midpoint
/// and moved outward by the margin.
pub open spec fn probe_spec(surface: Surface, width: int, height: int) -> SurfaceProbe {
    let along_x = width * 5 / 7;
    let along_y = height * 5 / 7;
    let out_x = width / 2 + PROBE_MARGIN;
    let out_y = height / 2 + PROBE_MARGIN;
    let (offset_x, offset_y, w, h) = match surface {
        Surface::Top => (0, out_y, along_x, PROBE_THICKNESS as int),
        Surface::Bottom => (0, -out_y, along_x, PROBE_THICKNESS as int),
        Surface::Left => (-out_x, 0, PROBE_THICKNESS as int, along_y),
        Surface::Right => (out_x, 0, PROBE_THICKNESS as int, along_y),
    };
    SurfaceProbe { offset_x: offset_x as i64, offset_y: offset_y as i64, width: w as i64, height: h as i64 }
}

/// The probe region that tells whether `surface` touches ground.
pub fn surface_probe(surface: Surface, width: i64, height: i64) -> (r: SurfaceProbe)
    requires
        0 < width <= MAX_BOX_SIDE,
        0 < height <= MAX_BOX_SIDE,
    ensures
        r == probe_spec(surface, width as int, height as int),
{
    let along_x: i64 = width * 5 / 7;
    let along_y: i64 = height * 5 / 7;
    let out_x: i64 = width / 2 + PROBE_MARGIN;
    let out_y: i64 = height / 2 + PROBE_MARGIN;
    match surface {
        Surface::Top => SurfaceProbe { offset_x: 0, offset_y: out_y, width: along_x, height: PROBE_THICKNESS },
        Surface::Bottom => SurfaceProbe { offset_x: 0, offset_y: -out_y, width: along_x, height: PROBE_THICKNESS },
        Surface::Left => SurfaceProbe { offset_x: -out_x, offset_y: 0, width: PROBE_THICKNESS, height: along_y },
        Surface::Right => SurfaceProbe { offset_x: out_x, offset_y: 0, width: PROBE_THICKNESS, height: along_y },
    }
}

} // verus!
