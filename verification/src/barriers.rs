//! Pointer barriers: where they lie, how they are numbered and labelled.
//!
//! A barrier is a line in absolute desktop coordinates with a non-zero id. Lines come either
//! from the edges of the screen zones, filtered by name, or from segments that the caller
//! spells out. Either way the ids count up from one in the order of the lines, and the barrier
//! map says which label an id stands for.

use crate::text::{debug_quoted, decimal, i32_text, quote, usize_text};
use ashpd::desktop::input_capture::Barrier;
use vstd::prelude::*;
use vstd::string::*;

verus! {

/// A screen zone: `(width, height, x_offset, y_offset)`.
pub type Zone = (u32, u32, i32, i32);

/// A line: `(x1, y1, x2, y2)`, both ends included.
pub type Position = (i32, i32, i32, i32);

/// A labelled line that the caller asks for: `(label, x1, y1, x2, y2)`.
pub type Segment = (String, i32, i32, i32, i32);

/// Which label each armed barrier id stands for.
pub type BarrierMap = Vec<(u32, String)>;

// ---------------------------------------------------------------------------------------------
// The portal's barrier type
// ---------------------------------------------------------------------------------------------
/// `ashpd::desktop::input_capture::Barrier`, the form in which a barrier goes to the portal.
#[verifier::external_type_specification]
#[verifier::external_body]
pub struct ExBarrier(Barrier);

/// The portal barrier with this id and this position.
pub uninterp spec fn portal_barrier(id: u32, position: (i32, i32, i32, i32)) -> Barrier;

/// Calls `ashpd::desktop::input_capture::Barrier::new`, which stores its two arguments in a new
/// value. The contract claims that the value depends on the id and the position alone. An id of
/// zero is left out, because the portal's ids are `NonZeroU32`.
#[verifier::external_body]
fn new_barrier(id: u32, position: (i32, i32, i32, i32)) -> (b: Barrier)
    requires
        id != 0,
    ensures
        b == portal_barrier(id, position),
{
    Barrier::new(std::num::NonZeroU32::new(id).unwrap(), position)
}

// ---------------------------------------------------------------------------------------------
// Model
// ---------------------------------------------------------------------------------------------
/// A labelled line.
pub ghost struct Line {
    pub label: Seq<char>,
    pub position: Position,
}

/// The characters of each string.
pub open spec fn texts(names: Seq<String>) -> Seq<Seq<char>> {
    Seq::new(names.len(), |i: int| names[i]@)
}

/// The edge names that a filter lists; `None` stands for no filter.
pub open spec fn filter_view(edges: Option<&[String]>) -> Option<Seq<Seq<char>>> {
    match edges {
        Some(names) => Some(texts(names@)),
        None => None,
    }
}

/// The ids and the characters of the labels of a barrier map.
pub open spec fn map_view(map: Seq<(u32, String)>) -> Seq<(u32, Seq<char>)> {
    Seq::new(map.len(), |i: int| (map[i].0, map[i].1@))
}

/// One of the four edges of a zone.
#[derive(Clone, Copy, PartialEq, Eq, Structural, Debug)]
pub enum Edge {
    Top,
    Bottom,
    Left,
    Right,
}

impl Edge {
    /// The name by which callers select the edge, and its label in the barrier map.
    pub open spec fn spec_name(self) -> Seq<char> {
        match self {
            Edge::Top => "top"@,
            Edge::Bottom => "bottom"@,
            Edge::Left => "left"@,
            Edge::Right => "right"@,
        }
    }

    /// The name by which callers select the edge, and its label in the barrier map.
    pub fn name(&self) -> (r: String)
        ensures
            r@ == self.spec_name(),
    {
        match self {
            Edge::Top => "top".to_string(),
            Edge::Bottom => "bottom".to_string(),
            Edge::Left => "left".to_string(),
            Edge::Right => "right".to_string(),
        }
    }
}

/// A zone's size as the signed number with the same low bits.
pub open spec fn signed(size: u32) -> int {
    if size <= i32::MAX {
        size as int
    } else {
        size - 0x1_0000_0000
    }
}

/// Whether the four edges of the zone have coordinates that fit.
pub open spec fn zone_fits(zone: Zone) -> bool {
    &&& i32::MIN < zone.2 + signed(zone.0) <= i32::MAX
    &&& i32::MIN < zone.3 + signed(zone.1) <= i32::MAX
}

/// Where an edge lies. The top and left edges run through the zone's outermost pixels, the
/// bottom and right edges just outside of it; the end coordinates are inclusive.
pub open spec fn edge_position(zone: Zone, edge: Edge) -> Position {
    let (x, y) = (zone.2, zone.3);
    let (w, h) = (signed(zone.0), signed(zone.1));
    match edge {
        Edge::Top => (x, y, (x + w - 1) as i32, y),
        Edge::Bottom => (x, (y + h) as i32, (x + w - 1) as i32, (y + h) as i32),
        Edge::Left => (x, y, x, (y + h - 1) as i32),
        Edge::Right => ((x + w) as i32, y, (x + w) as i32, (y + h - 1) as i32),
    }
}

/// Whether a filter lets an edge through.
pub open spec fn selects(filter: Option<Seq<Seq<char>>>, edge: Edge) -> bool {
    match filter {
        Some(names) => names.contains(edge.spec_name()),
        None => true,
    }
}

/// The line of one edge of one zone, or nothing where the filter leaves the edge out.
pub open spec fn edge_line(zone: Zone, filter: Option<Seq<Seq<char>>>, edge: Edge) -> Seq<Line> {
    if selects(filter, edge) {
        seq![Line { label: edge.spec_name(), position: edge_position(zone, edge) }]
    } else {
        seq![]
    }
}

/// The lines of one zone: top, bottom, left, right, as far as selected.
pub open spec fn zone_lines(zone: Zone, filter: Option<Seq<Seq<char>>>) -> Seq<Line> {
    edge_line(zone, filter, Edge::Top) + edge_line(zone, filter, Edge::Bottom) + edge_line(
        zone,
        filter,
        Edge::Left,
    ) + edge_line(zone, filter, Edge::Right)
}

/// The lines of all zones, zone after zone.
pub open spec fn edge_lines(zones: Seq<Zone>, filter: Option<Seq<Seq<char>>>) -> Seq<Line>
    decreases zones.len(),
{
    if zones.len() == 0 {
        seq![]
    } else {
        edge_lines(zones.drop_last(), filter) + zone_lines(zones.last(), filter)
    }
}

/// The lines of the segments, verbatim.
pub open spec fn segment_lines(segments: Seq<Segment>) -> Seq<Line> {
    Seq::new(
        segments.len(),
        |i: int|
            Line {
                label: segments[i].0@,
                position: (segments[i].1, segments[i].2, segments[i].3, segments[i].4),
            },
    )
}

/// The id of the line at index `i`: ids count up from one.
pub open spec fn line_id(i: int) -> u32 {
    (i + 1) as u32
}

/// The barriers that go to the portal for these lines.
pub open spec fn portal_barriers(lines: Seq<Line>) -> Seq<Barrier> {
    Seq::new(lines.len(), |i: int| portal_barrier(line_id(i), lines[i].position))
}

/// The barrier map for these lines.
pub open spec fn barrier_labels(lines: Seq<Line>) -> Seq<(u32, Seq<char>)> {
    Seq::new(lines.len(), |i: int| (line_id(i), lines[i].label))
}

/// Whether the edge lines of these zones can be computed and numbered.
pub open spec fn edges_fit(zones: Seq<Zone>, filter: Option<Seq<Seq<char>>>) -> bool {
    &&& forall|i: int| 0 <= i < zones.len() ==> zone_fits(#[trigger] zones[i])
    &&& edge_lines(zones, filter).len() < u32::MAX
}

/// Whether the segments can be numbered.
pub open spec fn segments_fit(segments: Seq<Segment>) -> bool {
    segments.len() <= u32::MAX
}

/// Whether a segment is horizontal or vertical; a single point is both.
pub open spec fn axis_aligned(segment: Segment) -> bool {
    segment.1 == segment.3 || segment.2 == segment.4
}

/// Why the segment at index `i` is refused.
pub open spec fn skew_message(i: int, segment: Segment) -> Seq<char> {
    "segment "@ + decimal(i) + " ("@ + debug_quoted(segment.0@) + ") is not axis-aligned: ("@
        + decimal(segment.1 as int) + ", "@ + decimal(segment.2 as int) + ") -> ("@ + decimal(
        segment.3 as int,
    ) + ", "@ + decimal(segment.4 as int) + "); barriers must be horizontal or vertical"@
}

// ---------------------------------------------------------------------------------------------
// Planning
// ---------------------------------------------------------------------------------------------
/// A numbered, labelled line that is about to become a barrier.
#[derive(Debug, PartialEq, Eq)]
pub struct PlannedBarrier {
    pub id: u32,
    pub label: String,
    pub position: Position,
}

/// Whether `plan` numbers exactly these lines.
pub open spec fn is_plan(plan: Seq<PlannedBarrier>, lines: Seq<Line>) -> bool {
    &&& plan.len() == lines.len()
    &&& forall|i: int|
        0 <= i < plan.len() ==> {
            &&& (#[trigger] plan[i]).id == line_id(i)
            &&& plan[i].label@ == lines[i].label
            &&& plan[i].position == lines[i].position
        }
}

fn signed_size(size: u32) -> (r: i32)
    ensures
        r == signed(size),
{
    if size <= 0x7fff_ffff {
        size as i32
    } else {
        let r: i32 = (size as i64 - 0x1_0000_0000) as i32;
        r
    }
}

/// Where an edge of a zone lies.
pub fn position_of(zone: &Zone, edge: Edge) -> (r: Position)
    requires
        zone_fits(*zone),
    ensures
        r == edge_position(*zone, edge),
{
    let (x, y): (i32, i32) = (zone.2, zone.3);
    let (w, h): (i32, i32) = (signed_size(zone.0), signed_size(zone.1));
    match edge {
        Edge::Top => (x, y, x + w - 1, y),
        Edge::Bottom => (x, y + h, x + w - 1, y + h),
        Edge::Left => (x, y, x, y + h - 1),
        Edge::Right => (x + w, y, x + w, y + h - 1),
    }
}

/// Whether a filter lets an edge through.
pub fn is_selected(edges: Option<&[String]>, edge: Edge) -> (r: bool)
    ensures
        r == selects(filter_view(edges), edge),
{
    match edges {
        None => true,
        Some(names) => {
            let wanted: String = edge.name();
            let mut i: usize = 0;
            while i < names.len()
                invariant
                    i <= names.len(),
                    edges == Some(names),
                    wanted@ == edge.spec_name(),
                    forall|j: int| 0 <= j < i ==> (#[trigger] names@[j])@ != wanted@,
                decreases names.len() - i,
            {
                if names[i] == wanted {
                    assert(texts(names@)[i as int] == edge.spec_name());
                    return true;
                }
                i = i + 1;
            }
            false
        },
    }
}

fn plan_edge(
    plan: &mut Vec<PlannedBarrier>,
    zone: &Zone,
    edges: Option<&[String]>,
    edge: Edge,
    Ghost(lines): Ghost<Seq<Line>>,
)
    requires
        zone_fits(*zone),
        is_plan(old(plan)@, lines),
        lines.len() + edge_line(*zone, filter_view(edges), edge).len() < u32::MAX,
    ensures
        is_plan(final(plan)@, lines + edge_line(*zone, filter_view(edges), edge)),
{
    if is_selected(edges, edge) {
        let id: u32 = plan.len() as u32 + 1;
        plan.push(PlannedBarrier { id, label: edge.name(), position: position_of(zone, edge) });
    } else {
        assert(lines + edge_line(*zone, filter_view(edges), edge) =~= lines);
    }
}

proof fn lemma_edge_lines_grow(zones: Seq<Zone>, filter: Option<Seq<Seq<char>>>, i: int)
    requires
        0 <= i <= zones.len(),
    ensures
        edge_lines(zones.take(i), filter).len() <= edge_lines(zones, filter).len(),
    decreases zones.len() - i,
{
    if i < zones.len() {
        lemma_edge_lines_grow(zones, filter, i + 1);
        assert(zones.take(i + 1).drop_last() =~= zones.take(i));
    } else {
        assert(zones.take(i) =~= zones);
    }
}

/// Numbers the selected edges of every zone; `None` selects all four, an empty filter none.
pub fn plan_edges(zones: &[Zone], edges: Option<&[String]>) -> (plan: Vec<PlannedBarrier>)
    requires
        edges_fit(zones@, filter_view(edges)),
    ensures
        is_plan(plan@, edge_lines(zones@, filter_view(edges))),
{
    let mut plan: Vec<PlannedBarrier> = Vec::new();
    let ghost filter = filter_view(edges);
    let mut i: usize = 0;
    while i < zones.len()
        invariant
            i <= zones.len(),
            filter == filter_view(edges),
            edges_fit(zones@, filter),
            is_plan(plan@, edge_lines(zones@.take(i as int), filter)),
        decreases zones.len() - i,
    {
        let zone: &Zone = &zones[i];
        let ghost before = edge_lines(zones@.take(i as int), filter);
        proof {
            lemma_edge_lines_grow(zones@, filter, i + 1);
            assert(zones@.take(i + 1).drop_last() =~= zones@.take(i as int));
            assert(edge_lines(zones@.take(i + 1), filter) == before + zone_lines(*zone, filter));
        }
        let ghost one = before + edge_line(*zone, filter, Edge::Top);
        let ghost two = one + edge_line(*zone, filter, Edge::Bottom);
        let ghost three = two + edge_line(*zone, filter, Edge::Left);
        plan_edge(&mut plan, zone, edges, Edge::Top, Ghost(before));
        plan_edge(&mut plan, zone, edges, Edge::Bottom, Ghost(one));
        plan_edge(&mut plan, zone, edges, Edge::Left, Ghost(two));
        plan_edge(&mut plan, zone, edges, Edge::Right, Ghost(three));
        assert(three + edge_line(*zone, filter, Edge::Right) =~= before + zone_lines(*zone, filter));
        i = i + 1;
    }
    assert(zones@.take(i as int) =~= zones@);
    plan
}

/// Numbers the segments, taken verbatim.
pub fn plan_segments(segments: &[Segment]) -> (plan: Vec<PlannedBarrier>)
    requires
        segments_fit(segments@),
    ensures
        is_plan(plan@, segment_lines(segments@)),
{
    let mut plan: Vec<PlannedBarrier> = Vec::new();
    let mut i: usize = 0;
    while i < segments.len()
        invariant
            i <= segments.len(),
            segments_fit(segments@),
            is_plan(plan@, segment_lines(segments@).take(i as int)),
        decreases segments.len() - i,
    {
        let s: &Segment = &segments[i];
        let id: u32 = i as u32 + 1;
        plan.push(PlannedBarrier { id, label: s.0.clone(), position: (s.1, s.2, s.3, s.4) });
        i = i + 1;
    }
    assert(segment_lines(segments@).take(i as int) =~= segment_lines(segments@));
    plan
}

/// Turns a plan into the barriers for the portal and the map that resolves their ids.
pub fn realize(plan: Vec<PlannedBarrier>) -> (r: (Vec<Barrier>, BarrierMap))
    requires
        forall|i: int| 0 <= i < plan@.len() ==> (#[trigger] plan@[i]).id != 0,
    ensures
        r.0@.len() == plan@.len(),
        r.1@.len() == plan@.len(),
        forall|i: int|
            0 <= i < plan@.len() ==> #[trigger] r.0@[i] == portal_barrier(
                plan@[i].id,
                plan@[i].position,
            ),
        forall|i: int|
            0 <= i < plan@.len() ==> #[trigger] r.1@[i] == (plan@[i].id, plan@[i].label),
{
    let mut barriers: Vec<Barrier> = Vec::new();
    let mut map: BarrierMap = Vec::new();
    let mut i: usize = 0;
    while i < plan.len()
        invariant
            i <= plan.len(),
            forall|j: int| 0 <= j < plan@.len() ==> (#[trigger] plan@[j]).id != 0,
            barriers@.len() == i,
            map@.len() == i,
            forall|j: int|
                0 <= j < i ==> #[trigger] barriers@[j] == portal_barrier(
                    plan@[j].id,
                    plan@[j].position,
                ),
            forall|j: int| 0 <= j < i ==> #[trigger] map@[j] == (plan@[j].id, plan@[j].label),
        decreases plan.len() - i,
    {
        let p: &PlannedBarrier = &plan[i];
        barriers.push(new_barrier(p.id, p.position));
        map.push((p.id, p.label.clone()));
        i = i + 1;
    }
    (barriers, map)
}

// ---------------------------------------------------------------------------------------------
// Building
// ---------------------------------------------------------------------------------------------
/// Builds edge barriers for every zone, filtered by name where a filter is given.
pub fn build_barriers(zones: &[Zone], active_edges: Option<&[String]>) -> (r: (
    Vec<Barrier>,
    BarrierMap,
))
    requires
        edges_fit(zones@, filter_view(active_edges)),
    ensures
        r.0@ == portal_barriers(edge_lines(zones@, filter_view(active_edges))),
        map_view(r.1@) == barrier_labels(edge_lines(zones@, filter_view(active_edges))),
{
    let plan: Vec<PlannedBarrier> = plan_edges(zones, active_edges);
    realize(plan)
}

/// Builds barriers from explicit segments, taken verbatim and in order.
pub fn build_segment_barriers(segments: &[Segment]) -> (r: (Vec<Barrier>, BarrierMap))
    requires
        segments_fit(segments@),
    ensures
        r.0@ == portal_barriers(segment_lines(segments@)),
        map_view(r.1@) == barrier_labels(segment_lines(segments@)),
{
    let plan: Vec<PlannedBarrier> = plan_segments(segments);
    realize(plan)
}

fn skew_text(i: usize, segment: &Segment) -> (r: String)
    ensures
        r@ == skew_message(i as int, *segment),
{
    let mut r: String = "segment ".to_string();
    r.append(usize_text(i).as_str());
    r.append(" (");
    r.append(quote(&segment.0).as_str());
    r.append(") is not axis-aligned: (");
    r.append(i32_text(segment.1).as_str());
    r.append(", ");
    r.append(i32_text(segment.2).as_str());
    r.append(") -> (");
    r.append(i32_text(segment.3).as_str());
    r.append(", ");
    r.append(i32_text(segment.4).as_str());
    r.append("); barriers must be horizontal or vertical");
    r
}

/// Refuses segments that the portal cannot express, naming the first offender by its index:
/// labels may repeat, so only the index pins it down.
pub fn validate_segments(segments: &[Segment]) -> (r: Result<(), String>)
    ensures
        match r {
            Ok(()) => forall|i: int|
                0 <= i < segments@.len() ==> axis_aligned(#[trigger] segments@[i]),
            Err(message) => exists|i: int|
                {
                    &&& 0 <= i < segments@.len()
                    &&& !axis_aligned(#[trigger] segments@[i])
                    &&& forall|j: int| 0 <= j < i ==> axis_aligned(#[trigger] segments@[j])
                    &&& message@ == skew_message(i, segments@[i])
                },
        },
{
    let mut i: usize = 0;
    while i < segments.len()
        invariant
            i <= segments.len(),
            forall|j: int| 0 <= j < i ==> axis_aligned(#[trigger] segments@[j]),
        decreases segments.len() - i,
    {
        let s: &Segment = &segments[i];
        if s.1 != s.3 && s.2 != s.4 {
            let message: String = skew_text(i, s);
            assert(!axis_aligned(segments@[i as int]));
            return Err(message);
        }
        i = i + 1;
    }
    Ok(())
}

// ---------------------------------------------------------------------------------------------
// Checking that barriers can be built
// ---------------------------------------------------------------------------------------------
/// One where the filter lets the edge through, zero otherwise.
pub open spec fn selected_once(filter: Option<Seq<Seq<char>>>, edge: Edge) -> nat {
    if selects(filter, edge) {
        1
    } else {
        0
    }
}

/// How many of the four edges a filter lets through.
pub open spec fn selected_edges(filter: Option<Seq<Seq<char>>>) -> nat {
    selected_once(filter, Edge::Top) + selected_once(filter, Edge::Bottom) + selected_once(
        filter,
        Edge::Left,
    ) + selected_once(filter, Edge::Right)
}

fn count_selected(edges: Option<&[String]>) -> (r: usize)
    ensures
        r == selected_edges(filter_view(edges)),
        r <= 4,
{
    let mut r: usize = 0;
    if is_selected(edges, Edge::Top) {
        r = r + 1;
    }
    if is_selected(edges, Edge::Bottom) {
        r = r + 1;
    }
    if is_selected(edges, Edge::Left) {
        r = r + 1;
    }
    if is_selected(edges, Edge::Right) {
        r = r + 1;
    }
    r
}

/// Whether `build_barriers` can compute and number the edges of these zones.
pub fn can_build_barriers(zones: &[Zone], active_edges: Option<&[String]>) -> (r: bool)
    ensures
        r == edges_fit(zones@, filter_view(active_edges)),
{
    let mut i: usize = 0;
    while i < zones.len()
        invariant
            i <= zones.len(),
            forall|j: int| 0 <= j < i ==> zone_fits(#[trigger] zones@[j]),
        decreases zones.len() - i,
    {
        let zone: &Zone = &zones[i];
        let right: i64 = zone.2 as i64 + signed_size(zone.0) as i64;
        let bottom: i64 = zone.3 as i64 + signed_size(zone.1) as i64;
        if right <= -0x8000_0000 || right > 0x7fff_ffff || bottom <= -0x8000_0000 || bottom
            > 0x7fff_ffff {
            assert(!zone_fits(zones@[i as int]));
            return false;
        }
        i = i + 1;
    }
    let per_zone: usize = count_selected(active_edges);
    let n: u128 = zones.len() as u128;
    assert(per_zone * n <= 4 * n) by (nonlinear_arith)
        requires
            per_zone <= 4,
            n >= 0,
    ;
    let total: u128 = per_zone as u128 * n;
    proof {
        law_edge_count(zones@, filter_view(active_edges));
    }
    total < 0xffff_ffff
}

/// Whether `build_segment_barriers` can number these segments.
pub fn can_build_segment_barriers(segments: &[Segment]) -> (r: bool)
    ensures
        r == segments_fit(segments@),
{
    segments.len() as u64 <= 0xffff_ffff
}

// ---------------------------------------------------------------------------------------------
// Laws
// ---------------------------------------------------------------------------------------------
/// Every zone contributes one line for each selected edge: four without a filter, none with an
/// empty one.
pub proof fn law_edge_count(zones: Seq<Zone>, filter: Option<Seq<Seq<char>>>)
    ensures
        edge_lines(zones, filter).len() == selected_edges(filter) * zones.len(),
        filter is None ==> edge_lines(zones, filter).len() == 4 * zones.len(),
        filter == Some(Seq::<Seq<char>>::empty()) ==> edge_lines(zones, filter).len() == 0,
    decreases zones.len(),
{
    let k = selected_edges(filter);
    if zones.len() > 0 {
        let rest = zones.drop_last();
        law_edge_count(rest, filter);
        assert(zone_lines(zones.last(), filter).len() == k);
        assert(k * rest.len() + k == k * zones.len()) by (nonlinear_arith)
            requires
                rest.len() + 1 == zones.len(),
        ;
    } else {
        assert(k * zones.len() == 0) by (nonlinear_arith)
            requires
                zones.len() == 0,
        ;
    }
}

/// Nothing but selected edges is armed: every line is the selected edge of some zone, under the
/// name of that edge.
pub proof fn law_lines_are_selected_edges(
    zones: Seq<Zone>,
    filter: Option<Seq<Seq<char>>>,
    i: int,
)
    requires
        0 <= i < edge_lines(zones, filter).len(),
    ensures
        exists|k: int, edge: Edge|
            #![trigger zones[k], edge.spec_name()]
            {
                &&& 0 <= k < zones.len()
                &&& selects(filter, edge)
                &&& edge_lines(zones, filter)[i] == (Line {
                    label: edge.spec_name(),
                    position: edge_position(zones[k], edge),
                })
            },
    decreases zones.len(),
{
    let rest = zones.drop_last();
    let head = edge_lines(rest, filter);
    if i < head.len() {
        law_lines_are_selected_edges(rest, filter, i);
        let (k, edge) = choose|k: int, edge: Edge|
            #![trigger rest[k], edge.spec_name()]
            {
                &&& 0 <= k < rest.len()
                &&& selects(filter, edge)
                &&& head[i] == (Line {
                    label: edge.spec_name(),
                    position: edge_position(rest[k], edge),
                })
            };
        assert(zones[k] == rest[k]);
        assert(edge_lines(zones, filter)[i] == head[i]);
    } else {
        let z = zones.last();
        let a = edge_line(z, filter, Edge::Top);
        let b = edge_line(z, filter, Edge::Bottom);
        let c = edge_line(z, filter, Edge::Left);
        let j = i - head.len();
        assert(edge_lines(zones, filter)[i] == zone_lines(z, filter)[j]);
        let edge = if j < a.len() {
            Edge::Top
        } else if j < a.len() + b.len() {
            Edge::Bottom
        } else if j < a.len() + b.len() + c.len() {
            Edge::Left
        } else {
            Edge::Right
        };
        assert(selects(filter, edge));
        assert(zones[zones.len() - 1] == z);
        assert(zone_lines(z, filter)[j] == Line {
            label: edge.spec_name(),
            position: edge_position(z, edge),
        });
    }
}

/// Every selected edge of every zone is armed.
pub proof fn law_selected_edges_have_lines(
    zones: Seq<Zone>,
    filter: Option<Seq<Seq<char>>>,
    k: int,
    edge: Edge,
)
    requires
        0 <= k < zones.len(),
        selects(filter, edge),
    ensures
        edge_lines(zones, filter).contains(
            Line { label: edge.spec_name(), position: edge_position(zones[k], edge) },
        ),
    decreases zones.len(),
{
    let rest = zones.drop_last();
    let head = edge_lines(rest, filter);
    let line = Line { label: edge.spec_name(), position: edge_position(zones[k], edge) };
    let all = edge_lines(zones, filter);
    if k < rest.len() {
        law_selected_edges_have_lines(rest, filter, k, edge);
        let i = choose|i: int| 0 <= i < head.len() && head[i] == line;
        assert(all[i] == line);
    } else {
        let z = zones.last();
        let a = edge_line(z, filter, Edge::Top).len();
        let b = edge_line(z, filter, Edge::Bottom).len();
        let c = edge_line(z, filter, Edge::Left).len();
        let j: int = match edge {
            Edge::Top => 0,
            Edge::Bottom => a as int,
            Edge::Left => (a + b) as int,
            Edge::Right => (a + b + c) as int,
        };
        assert(zone_lines(z, filter)[j] == line);
        assert(all[head.len() + j] == line);
    }
}

/// A filter counts as the set of the edges that it names: order, repetition and unknown names
/// make no difference, so the same request arms the same barriers under the same ids.
pub proof fn law_filter_is_a_set(
    zones: Seq<Zone>,
    a: Option<Seq<Seq<char>>>,
    b: Option<Seq<Seq<char>>>,
)
    requires
        forall|edge: Edge| selects(a, edge) == selects(b, edge),
    ensures
        edge_lines(zones, a) == edge_lines(zones, b),
        portal_barriers(edge_lines(zones, a)) == portal_barriers(edge_lines(zones, b)),
        barrier_labels(edge_lines(zones, a)) == barrier_labels(edge_lines(zones, b)),
    decreases zones.len(),
{
    if zones.len() > 0 {
        law_filter_is_a_set(zones.drop_last(), a, b);
        assert forall|edge: Edge|
            edge_line(zones.last(), a, edge) == edge_line(zones.last(), b, edge) by {
            assert(selects(a, edge) == selects(b, edge));
        }
    }
}

/// Edge barriers are horizontal or vertical, so the portal never refuses them for being skewed.
pub proof fn law_edges_are_axis_aligned(zone: Zone, edge: Edge)
    ensures
        ({
            let p = edge_position(zone, edge);
            p.0 == p.2 || p.1 == p.3
        }),
{
}

/// An edge barrier covers its edge exactly, the end coordinates included: as many pixels as the
/// zone is wide or high. The top and left edges lie on the zone's first row and column, the
/// bottom and right edges on the first row and column beyond it.
pub proof fn law_edges_span_the_zone(zone: Zone)
    requires
        zone_fits(zone),
        zone.0 <= i32::MAX,
        zone.1 <= i32::MAX,
    ensures
        ({
            let p = edge_position(zone, Edge::Top);
            p.0 == zone.2 && p.2 - p.0 + 1 == zone.0 && p.1 == zone.3 && p.3 == zone.3
        }),
        ({
            let p = edge_position(zone, Edge::Bottom);
            p.0 == zone.2 && p.2 - p.0 + 1 == zone.0 && p.1 == zone.3 + zone.1 && p.3 == zone.3
                + zone.1
        }),
        ({
            let p = edge_position(zone, Edge::Left);
            p.1 == zone.3 && p.3 - p.1 + 1 == zone.1 && p.0 == zone.2 && p.2 == zone.2
        }),
        ({
            let p = edge_position(zone, Edge::Right);
            p.1 == zone.3 && p.3 - p.1 + 1 == zone.1 && p.0 == zone.2 + zone.0 && p.2 == zone.2
                + zone.0
        }),
{
}

/// Barrier ids are non-zero, count up from one without gaps, and never repeat.
pub proof fn law_ids_are_sequential(lines: Seq<Line>)
    requires
        lines.len() <= u32::MAX,
    ensures
        forall|i: int|
            0 <= i < lines.len() ==> {
                &&& (#[trigger] barrier_labels(lines)[i]).0 == i + 1
                &&& barrier_labels(lines)[i].0 != 0
            },
        forall|i: int, j: int|
            0 <= i < j < lines.len() ==> (#[trigger] barrier_labels(lines)[i]).0 != (
            #[trigger] barrier_labels(lines)[j]).0,
{
}

/// What the map says of an id is what was sent under it: the entry and the barrier at one index
/// share the id, and carry the label and the position of the same line.
pub proof fn law_map_resolves_barriers(lines: Seq<Line>, i: int)
    requires
        0 <= i < lines.len() <= u32::MAX,
    ensures
        portal_barriers(lines).len() == barrier_labels(lines).len(),
        portal_barriers(lines)[i] == portal_barrier(barrier_labels(lines)[i].0, lines[i].position),
        barrier_labels(lines)[i].1 == lines[i].label,
{
}

/// Segments that pass validation become horizontal or vertical barriers at the coordinates that
/// the caller gave.
pub proof fn law_valid_segments_stay_axis_aligned(segments: Seq<Segment>, i: int)
    requires
        0 <= i < segments.len(),
        forall|j: int| 0 <= j < segments.len() ==> axis_aligned(#[trigger] segments[j]),
    ensures
        ({
            let p = segment_lines(segments)[i].position;
            &&& p == (segments[i].1, segments[i].2, segments[i].3, segments[i].4)
            &&& p.0 == p.2 || p.1 == p.3
        }),
{
    assert(axis_aligned(segments[i]));
}

/// A list of names, a filter and a barrier map are read entry by entry: nothing is left out, put
/// in or moved, and no text is changed.
pub proof fn law_lists_are_read_verbatim(
    names: Seq<String>,
    edges: Option<&[String]>,
    map: Seq<(u32, String)>,
)
    ensures
        texts(names).len() == names.len(),
        forall|i: int| 0 <= i < names.len() ==> #[trigger] texts(names)[i] == names[i]@,
        edges is None <==> filter_view(edges) is None,
        edges matches Some(listed) ==> {
            &&& filter_view(edges)->0.len() == listed@.len()
            &&& forall|i: int|
                0 <= i < listed@.len() ==> #[trigger] filter_view(edges)->0[i] == listed@[i]@
        },
        map_view(map).len() == map.len(),
        forall|i: int|
            0 <= i < map.len() ==> (#[trigger] map_view(map)[i]).0 == map[i].0 && map_view(map)[i].1
                == map[i].1@,
{
}

/// The four edges go by four different names.
pub proof fn law_edges_have_names()
    ensures
        Edge::Top.spec_name() == "top"@,
        Edge::Bottom.spec_name() == "bottom"@,
        Edge::Left.spec_name() == "left"@,
        Edge::Right.spec_name() == "right"@,
        forall|a: Edge, b: Edge| a != b ==> #[trigger] a.spec_name() != #[trigger] b.spec_name(),
{
    reveal_strlit("top");
    reveal_strlit("bottom");
    reveal_strlit("left");
    reveal_strlit("right");
    assert("top"@.len() == 3 && "bottom"@.len() == 6 && "left"@.len() == 4 && "right"@.len() == 5);
}

/// A filter goes by the names of the edges: an edge is selected exactly where its name is in the
/// list. Without a filter every edge is selected.
pub proof fn law_filters_go_by_name(names: Seq<Seq<char>>)
    ensures
        selects(Some(names), Edge::Top) <==> exists|i: int|
            0 <= i < names.len() && #[trigger] names[i] == "top"@,
        selects(Some(names), Edge::Bottom) <==> exists|i: int|
            0 <= i < names.len() && #[trigger] names[i] == "bottom"@,
        selects(Some(names), Edge::Left) <==> exists|i: int|
            0 <= i < names.len() && #[trigger] names[i] == "left"@,
        selects(Some(names), Edge::Right) <==> exists|i: int|
            0 <= i < names.len() && #[trigger] names[i] == "right"@,
        forall|edge: Edge| #[trigger] selects(None, edge),
{
}

/// A size counts as the signed number that is congruent to it.
pub proof fn law_sizes_wrap(size: u32)
    ensures
        i32::MIN <= signed(size) <= i32::MAX,
        (size - signed(size)) % 0x1_0000_0000 == 0,
        size <= i32::MAX ==> signed(size) == size,
{
}

/// Where the edges of a zone lie, for the signed width `w` and the signed height `h` of the zone:
/// the top edge on its first row, the bottom edge on the first row below it, the left edge on its
/// first column, the right edge on the first column beside it.
pub proof fn law_edges_lie_around_the_zone(zone: Zone, w: int, h: int)
    requires
        i32::MIN <= w <= i32::MAX,
        i32::MIN <= h <= i32::MAX,
        (zone.0 - w) % 0x1_0000_0000 == 0,
        (zone.1 - h) % 0x1_0000_0000 == 0,
    ensures
        zone_fits(zone) <==> {
            &&& i32::MIN <= zone.2 + w - 1
            &&& zone.2 + w <= i32::MAX
            &&& i32::MIN <= zone.3 + h - 1
            &&& zone.3 + h <= i32::MAX
        },
        zone_fits(zone) ==> {
            let top = edge_position(zone, Edge::Top);
            let bottom = edge_position(zone, Edge::Bottom);
            let left = edge_position(zone, Edge::Left);
            let right = edge_position(zone, Edge::Right);
            &&& top.0 == zone.2 && top.1 == zone.3
            &&& top.2 == zone.2 + w - 1 && top.3 == zone.3
            &&& bottom.0 == zone.2 && bottom.1 == zone.3 + h
            &&& bottom.2 == zone.2 + w - 1 && bottom.3 == zone.3 + h
            &&& left.0 == zone.2 && left.1 == zone.3
            &&& left.2 == zone.2 && left.3 == zone.3 + h - 1
            &&& right.0 == zone.2 + w && right.1 == zone.3
            &&& right.2 == zone.2 + w && right.3 == zone.3 + h - 1
        },
{
    assert(signed(zone.0) == w);
    assert(signed(zone.1) == h);
}

/// Without a filter the zone at index `k` has the four lines from index `4 * k` on: top, bottom,
/// left, right, each under its name and at the place of that edge.
pub proof fn law_unfiltered_zones_have_four_lines(zones: Seq<Zone>, k: int)
    requires
        0 <= k < zones.len(),
    ensures
        ({
            let lines = edge_lines(zones, None);
            &&& lines.len() == 4 * zones.len()
            &&& lines[4 * k].label == "top"@
            &&& lines[4 * k].position == edge_position(zones[k], Edge::Top)
            &&& lines[4 * k + 1].label == "bottom"@
            &&& lines[4 * k + 1].position == edge_position(zones[k], Edge::Bottom)
            &&& lines[4 * k + 2].label == "left"@
            &&& lines[4 * k + 2].position == edge_position(zones[k], Edge::Left)
            &&& lines[4 * k + 3].label == "right"@
            &&& lines[4 * k + 3].position == edge_position(zones[k], Edge::Right)
        }),
    decreases zones.len(),
{
    let rest = zones.drop_last();
    law_edge_count(zones, None);
    law_edge_count(rest, None);
    if k < rest.len() {
        law_unfiltered_zones_have_four_lines(rest, k);
    }
}

/// Filtering takes lines away and does nothing else: with a filter there are exactly the lines
/// that there are without one and whose label is in the list, in the same order.
pub proof fn law_filters_only_take_away(zones: Seq<Zone>, names: Seq<Seq<char>>)
    ensures
        edge_lines(zones, Some(names)) == edge_lines(zones, None).filter(
            |line: Line| names.contains(line.label),
        ),
    decreases zones.len(),
{
    let keep = |line: Line| names.contains(line.label);
    reveal(Seq::filter);
    if zones.len() > 0 {
        let rest = zones.drop_last();
        let zone = zones.last();
        law_filters_only_take_away(rest, names);
        Seq::filter_distributes_over_add(edge_lines(rest, None), zone_lines(zone, None), keep);
        let top = edge_line(zone, None, Edge::Top);
        let bottom = edge_line(zone, None, Edge::Bottom);
        let left = edge_line(zone, None, Edge::Left);
        let right = edge_line(zone, None, Edge::Right);
        Seq::filter_distributes_over_add(top + bottom + left, right, keep);
        Seq::filter_distributes_over_add(top + bottom, left, keep);
        Seq::filter_distributes_over_add(top, bottom, keep);
        lemma_filter_of_one(zone, names, Edge::Top);
        lemma_filter_of_one(zone, names, Edge::Bottom);
        lemma_filter_of_one(zone, names, Edge::Left);
        lemma_filter_of_one(zone, names, Edge::Right);
    }
}

proof fn lemma_filter_of_one(zone: Zone, names: Seq<Seq<char>>, edge: Edge)
    ensures
        edge_line(zone, None, edge).filter(|line: Line| names.contains(line.label)) == edge_line(
            zone,
            Some(names),
            edge,
        ),
{
    let keep = |line: Line| names.contains(line.label);
    let one = edge_line(zone, None, edge);
    reveal(Seq::filter);
    assert(one.drop_last() =~= Seq::<Line>::empty());
    assert(one.drop_last().filter(keep) =~= Seq::<Line>::empty());
    assert(one.filter(keep) =~= edge_line(zone, Some(names), edge));
}

/// Whoever names an edge gets it on every zone, and whoever does not name it gets it on none.
pub proof fn law_named_edges_are_armed(zones: Seq<Zone>, names: Seq<Seq<char>>)
    ensures
        forall|k: int|
            0 <= k < zones.len() && names.contains("top"@) ==> edge_lines(
                zones,
                Some(names),
            ).contains(Line { label: "top"@, position: edge_position(#[trigger] zones[k], Edge::Top) }),
        forall|k: int|
            0 <= k < zones.len() && names.contains("bottom"@) ==> edge_lines(
                zones,
                Some(names),
            ).contains(
                Line { label: "bottom"@, position: edge_position(#[trigger] zones[k], Edge::Bottom) },
            ),
        forall|k: int|
            0 <= k < zones.len() && names.contains("left"@) ==> edge_lines(
                zones,
                Some(names),
            ).contains(
                Line { label: "left"@, position: edge_position(#[trigger] zones[k], Edge::Left) },
            ),
        forall|k: int|
            0 <= k < zones.len() && names.contains("right"@) ==> edge_lines(
                zones,
                Some(names),
            ).contains(
                Line { label: "right"@, position: edge_position(#[trigger] zones[k], Edge::Right) },
            ),
        forall|i: int|
            0 <= i < edge_lines(zones, Some(names)).len() ==> names.contains(
                (#[trigger] edge_lines(zones, Some(names))[i]).label,
            ),
{
    let filter = Some(names);
    assert forall|k: int, edge: Edge|
        #![trigger zones[k], edge.spec_name()]
        0 <= k < zones.len() && names.contains(edge.spec_name()) implies edge_lines(
        zones,
        filter,
    ).contains(Line { label: edge.spec_name(), position: edge_position(zones[k], edge) }) by {
        law_selected_edges_have_lines(zones, filter, k, edge);
    }
    assert(Edge::Top.spec_name() == "top"@);
    assert(Edge::Bottom.spec_name() == "bottom"@);
    assert(Edge::Left.spec_name() == "left"@);
    assert(Edge::Right.spec_name() == "right"@);
    assert forall|i: int| 0 <= i < edge_lines(zones, filter).len() implies names.contains(
        (#[trigger] edge_lines(zones, filter)[i]).label,
    ) by {
        law_lines_are_selected_edges(zones, filter, i);
    }
}

/// Zones are handled one after the other: the lines of two lists of zones, one behind the other,
/// are the lines of the first list followed by the lines of the second.
pub proof fn law_zones_add_up(a: Seq<Zone>, b: Seq<Zone>, filter: Option<Seq<Seq<char>>>)
    ensures
        edge_lines(a + b, filter) == edge_lines(a, filter) + edge_lines(b, filter),
    decreases b.len(),
{
    if b.len() == 0 {
        assert(a + b =~= a);
    } else {
        assert((a + b).drop_last() =~= a + b.drop_last());
        law_zones_add_up(a, b.drop_last(), filter);
    }
}

/// Edges can be armed exactly where every coordinate fits and the ids do not run out.
pub proof fn law_fitting_edges_can_be_armed(zones: Seq<Zone>, filter: Option<Seq<Seq<char>>>)
    ensures
        edges_fit(zones, filter) <==> {
            &&& forall|k: int|
                0 <= k < zones.len() ==> {
                    &&& i32::MIN < (#[trigger] zones[k]).2 + signed(zones[k].0) <= i32::MAX
                    &&& i32::MIN < zones[k].3 + signed(zones[k].1) <= i32::MAX
                }
            &&& edge_lines(zones, filter).len() < 0xffff_ffff
        },
{
    if edges_fit(zones, filter) {
        assert forall|k: int| 0 <= k < zones.len() implies {
            &&& i32::MIN < (#[trigger] zones[k]).2 + signed(zones[k].0) <= i32::MAX
            &&& i32::MIN < zones[k].3 + signed(zones[k].1) <= i32::MAX
        } by {
            assert(zone_fits(zones[k]));
        }
    }
}

/// Segments become lines one by one, each with the label and the coordinates that the caller
/// gave. All that can stand against them is that the ids run out.
pub proof fn law_segments_become_lines_verbatim(segments: Seq<Segment>)
    ensures
        segment_lines(segments).len() == segments.len(),
        forall|i: int|
            0 <= i < segments.len() ==> {
                let line = #[trigger] segment_lines(segments)[i];
                &&& line.label == segments[i].0@
                &&& line.position.0 == segments[i].1
                &&& line.position.1 == segments[i].2
                &&& line.position.2 == segments[i].3
                &&& line.position.3 == segments[i].4
            },
        segments_fit(segments) <==> segments.len() <= 0xffff_ffff,
{
}

/// Every line becomes one barrier and one entry of the map: the line at index `i` goes by the id
/// `i + 1`, the barrier has its position, the entry its label.
pub proof fn law_every_line_becomes_a_barrier(lines: Seq<Line>)
    requires
        lines.len() <= u32::MAX,
    ensures
        portal_barriers(lines).len() == lines.len(),
        barrier_labels(lines).len() == lines.len(),
        forall|i: int, id: u32|
            #![trigger lines[i], portal_barrier(id, lines[i].position)]
            0 <= i < lines.len() && id == i + 1 ==> portal_barriers(lines)[i] == portal_barrier(
                id,
                lines[i].position,
            ),
        forall|i: int|
            0 <= i < lines.len() ==> (#[trigger] barrier_labels(lines)[i]).0 == i + 1
                && barrier_labels(lines)[i].1 == lines[i].label,
{
}

/// A plan has one entry for each line, in order, with the ids counting up from one.
pub proof fn law_plans_number_the_lines(plan: Seq<PlannedBarrier>, lines: Seq<Line>)
    requires
        lines.len() <= u32::MAX,
    ensures
        is_plan(plan, lines) <==> {
            &&& plan.len() == lines.len()
            &&& forall|i: int|
                0 <= i < lines.len() ==> {
                    &&& (#[trigger] plan[i]).id == i + 1
                    &&& plan[i].label@ == lines[i].label
                    &&& plan[i].position == lines[i].position
                }
        },
{
}

/// A segment is refused exactly where its ends differ in both coordinates, and the refusal names
/// its index, its label and its coordinates.
pub proof fn law_skewed_segments_are_named(i: int, segment: Segment)
    ensures
        axis_aligned(segment) <==> !(segment.1 != segment.3 && segment.2 != segment.4),
        skew_message(i, segment) == "segment "@ + decimal(i) + " ("@ + debug_quoted(segment.0@)
            + ") is not axis-aligned: ("@ + decimal(segment.1 as int) + ", "@ + decimal(
            segment.2 as int,
        ) + ") -> ("@ + decimal(segment.3 as int) + ", "@ + decimal(segment.4 as int)
            + "); barriers must be horizontal or vertical"@,
{
}

} // verus!
