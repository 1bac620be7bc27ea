//! What a session knows of the portal's geometry, and how requested barriers are armed.

use crate::barriers::{
    barrier_labels, build_barriers, build_segment_barriers, can_build_barriers,
    can_build_segment_barriers, edge_lines, edges_fit, law_edge_count, map_view, portal_barriers,
    segment_lines, texts, BarrierMap, Line, Segment, Zone,
};
use ashpd::desktop::input_capture::Barrier;
use vstd::prelude::*;

verus! {

/// How the caller wants barriers described.
///
/// `Edges` covers whole zone edges by name; `None` stands for all four. `Segments` names
/// explicit lines, which is the only way to cover a part of an edge and leave the rest of it
/// free.
#[derive(Debug, PartialEq, Eq)]
pub enum BarrierSpec {
    Edges(Option<Vec<String>>),
    Segments(Vec<Segment>),
}

/// The mathematical content of a `BarrierSpec`.
pub ghost enum SpecView {
    Edges(Option<Seq<Seq<char>>>),
    Segments(Seq<Line>),
}

impl View for BarrierSpec {
    type V = SpecView;

    open spec fn view(&self) -> SpecView {
        match self {
            BarrierSpec::Edges(None) => SpecView::Edges(None),
            BarrierSpec::Edges(Some(names)) => SpecView::Edges(Some(texts(names@))),
            BarrierSpec::Segments(segments) => SpecView::Segments(segment_lines(segments@)),
        }
    }
}

/// The lines that a specification asks for, given the zones of the screen.
pub open spec fn requested_lines(spec: SpecView, zones: Seq<Zone>) -> Seq<Line> {
    match spec {
        SpecView::Edges(filter) => edge_lines(zones, filter),
        SpecView::Segments(lines) => lines,
    }
}

/// Whether the barriers of a specification can be computed and numbered.
pub open spec fn spec_fits(spec: SpecView, zones: Seq<Zone>) -> bool {
    match spec {
        SpecView::Edges(filter) => edges_fit(zones, filter),
        SpecView::Segments(lines) => lines.len() <= u32::MAX,
    }
}

/// What is left of a barrier map once the rejected ids are taken out.
pub open spec fn armed(map: Seq<(u32, Seq<char>)>, failed: Seq<u32>) -> Seq<(u32, Seq<char>)> {
    map.filter(|entry: (u32, Seq<char>)| !failed.contains(entry.0))
}

/// Portal geometry as of the last time the portal told us about it.
#[derive(Debug)]
pub struct SessionState {
    pub zones: Vec<Zone>,
    pub barrier_map: BarrierMap,
    pub zone_set: u32,
}

/// The mathematical content of a `SessionState`.
pub ghost struct SessionView {
    pub zones: Seq<Zone>,
    pub barrier_map: Seq<(u32, Seq<char>)>,
    pub zone_set: u32,
}

impl View for SessionState {
    type V = SessionView;

    open spec fn view(&self) -> SessionView {
        SessionView {
            zones: self.zones@,
            barrier_map: map_view(self.barrier_map@),
            zone_set: self.zone_set,
        }
    }
}

/// The state before the portal has said anything.
pub open spec fn blank_session() -> SessionView {
    SessionView { zones: seq![], barrier_map: seq![], zone_set: 0 }
}

impl Default for SessionState {
    fn default() -> (s: Self)
        ensures
            s@ == blank_session(),
    {
        let s: SessionState = SessionState {
            zones: Vec::new(),
            barrier_map: Vec::new(),
            zone_set: 0,
        };
        assert(s@.barrier_map =~= blank_session().barrier_map);
        s
    }
}

/// A copy of a barrier map.
pub fn clone_map(map: &BarrierMap) -> (r: BarrierMap)
    ensures
        r@ == map@,
{
    let mut r: BarrierMap = Vec::new();
    let mut i: usize = 0;
    while i < map.len()
        invariant
            i <= map.len(),
            r@ =~= map@.take(i as int),
        decreases map.len() - i,
    {
        r.push((map[i].0, map[i].1.clone()));
        i = i + 1;
    }
    r
}

/// A copy of a list of zones.
pub fn clone_zones(zones: &Vec<Zone>) -> (r: Vec<Zone>)
    ensures
        r@ == zones@,
{
    let mut r: Vec<Zone> = Vec::new();
    let mut i: usize = 0;
    while i < zones.len()
        invariant
            i <= zones.len(),
            r@ =~= zones@.take(i as int),
        decreases zones.len() - i,
    {
        r.push(zones[i]);
        i = i + 1;
    }
    r
}

fn contains_id(ids: &[u32], id: u32) -> (r: bool)
    ensures
        r == ids@.contains(id),
{
    let mut i: usize = 0;
    while i < ids.len()
        invariant
            i <= ids.len(),
            forall|j: int| 0 <= j < i ==> ids@[j] != id,
        decreases ids.len() - i,
    {
        if ids[i] == id {
            return true;
        }
        i = i + 1;
    }
    false
}

/// Takes the barriers that the compositor rejected out of a map.
pub fn retain_armed(map: &BarrierMap, failed: &[u32]) -> (r: BarrierMap)
    ensures
        map_view(r@) == armed(map_view(map@), failed@),
{
    let mut r: BarrierMap = Vec::new();
    let ghost all = map_view(map@);
    let ghost keep = |entry: (u32, Seq<char>)| !failed@.contains(entry.0);
    let mut i: usize = 0;
    proof {
        reveal(Seq::filter);
        assert(map_view(r@) =~= all.take(0).filter(keep));
    }
    while i < map.len()
        invariant
            i <= map.len(),
            all == map_view(map@),
            keep == (|entry: (u32, Seq<char>)| !failed@.contains(entry.0)),
            map_view(r@) == all.take(i as int).filter(keep),
        decreases map.len() - i,
    {
        let entry: &(u32, String) = &map[i];
        let ghost before = r@;
        proof {
            reveal(Seq::filter);
            assert(all.take(i + 1).drop_last() =~= all.take(i as int));
            assert(all.take(i + 1).last() == (entry.0, entry.1@));
        }
        if !contains_id(failed, entry.0) {
            r.push((entry.0, entry.1.clone()));
            assert(map_view(r@) =~= map_view(before).push((entry.0, entry.1@)));
        }
        i = i + 1;
    }
    assert(all.take(i as int) =~= all);
    r
}

/// Builds what a specification asks for on these zones.
pub fn build(spec: &BarrierSpec, zones: &[Zone]) -> (r: (Vec<Barrier>, BarrierMap))
    requires
        spec_fits(spec@, zones@),
    ensures
        r.0@ == portal_barriers(requested_lines(spec@, zones@)),
        map_view(r.1@) == barrier_labels(requested_lines(spec@, zones@)),
{
    match spec {
        BarrierSpec::Edges(Some(names)) => build_barriers(zones, Some(names.as_slice())),
        BarrierSpec::Edges(None) => build_barriers(zones, None),
        BarrierSpec::Segments(segments) => build_segment_barriers(segments.as_slice()),
    }
}

/// Whether `build` can compute and number what a specification asks for on these zones.
pub fn can_build(spec: &BarrierSpec, zones: &[Zone]) -> (r: bool)
    ensures
        r == spec_fits(spec@, zones@),
{
    match spec {
        BarrierSpec::Edges(Some(names)) => can_build_barriers(zones, Some(names.as_slice())),
        BarrierSpec::Edges(None) => can_build_barriers(zones, None),
        BarrierSpec::Segments(segments) => can_build_segment_barriers(segments.as_slice()),
    }
}

impl SessionState {
    /// Records the zones that the portal reported, and the id of the set that they form. The
    /// barrier map stays until barriers are armed on the new zones.
    pub fn record_zones(&mut self, zones: Vec<Zone>, zone_set: u32)
        ensures
            final(self)@ == (SessionView { zones: zones@, zone_set, ..old(self)@ }),
    {
        self.zones = zones;
        self.zone_set = zone_set;
    }

    /// Records which of the requested barriers the compositor accepted, and returns their map.
    pub fn record_armed(&mut self, requested: &BarrierMap, failed: &[u32]) -> (r: BarrierMap)
        ensures
            map_view(r@) == armed(map_view(requested@), failed@),
            final(self)@ == (SessionView { barrier_map: map_view(r@), ..old(self)@ }),
    {
        let map: BarrierMap = retain_armed(requested, failed);
        self.barrier_map = clone_map(&map);
        map
    }
}

// ---------------------------------------------------------------------------------------------
// Laws
// ---------------------------------------------------------------------------------------------
/// The recorded map only ever names barriers that exist: an entry is in it exactly if it was
/// requested and its id was not rejected.
pub proof fn law_armed_names_what_exists(
    map: Seq<(u32, Seq<char>)>,
    failed: Seq<u32>,
    entry: (u32, Seq<char>),
)
    ensures
        armed(map, failed).contains(entry) <==> map.contains(entry) && !failed.contains(entry.0),
    decreases map.len(),
{
    reveal(Seq::filter);
    if map.len() > 0 {
        let rest = map.drop_last();
        law_armed_names_what_exists(rest, failed, entry);
        assert(map =~= rest.push(map.last()));
        if entry == map.last() {
            assert(map[map.len() - 1] == entry);
            if !failed.contains(entry.0) {
                assert(armed(map, failed).last() == entry);
            }
        }
        if rest.contains(entry) {
            let i = choose|i: int| 0 <= i < rest.len() && rest[i] == entry;
            assert(map[i] == entry);
        }
        if armed(rest, failed).contains(entry) {
            let i = choose|i: int|
                0 <= i < armed(rest, failed).len() && armed(rest, failed)[i] == entry;
            assert(armed(map, failed)[i] == entry);
        }
    }
}

/// Where the compositor rejects nothing, the whole request is armed.
pub proof fn law_no_rejection_keeps_all(map: Seq<(u32, Seq<char>)>)
    ensures
        armed(map, seq![]) == map,
    decreases map.len(),
{
    reveal(Seq::filter);
    if map.len() > 0 {
        law_no_rejection_keeps_all(map.drop_last());
        assert(map =~= map.drop_last().push(map.last()));
    } else {
        assert(armed(map, seq![]) =~= map);
    }
}

/// An id resolves to the line that was requested under it, and to no other: the armed map lists
/// ids in increasing order, each with the label of its line.
pub proof fn law_armed_ids_resolve(lines: Seq<Line>, failed: Seq<u32>)
    requires
        lines.len() <= u32::MAX,
    ensures
        ({
            let map = armed(barrier_labels(lines), failed);
            &&& forall|i: int|
                0 <= i < map.len() ==> {
                    &&& 1 <= (#[trigger] map[i]).0 <= lines.len()
                    &&& map[i].1 == lines[map[i].0 - 1].label
                }
            &&& forall|i: int, j: int|
                0 <= i < j < map.len() ==> (#[trigger] map[i]).0 < (#[trigger] map[j]).0
        }),
    decreases lines.len(),
{
    reveal(Seq::filter);
    if lines.len() > 0 {
        let rest = lines.drop_last();
        law_armed_ids_resolve(rest, failed);
        let all = barrier_labels(lines);
        assert(all.drop_last() =~= barrier_labels(rest));
        let head = armed(barrier_labels(rest), failed);
        let map = armed(all, failed);
        assert(all.last() == (lines.len() as u32, lines.last().label));
        assert forall|i: int| 0 <= i < map.len() implies {
            &&& 1 <= (#[trigger] map[i]).0 <= lines.len()
            &&& map[i].1 == lines[map[i].0 - 1].label
        } by {
            if i < head.len() {
                assert(map[i] == head[i]);
            }
        }
        assert forall|i: int, j: int| 0 <= i < j < map.len() implies (#[trigger] map[i]).0 < (
        #[trigger] map[j]).0 by {
            assert(map[i] == head[i]);
            if j < head.len() {
                assert(map[j] == head[j]);
            }
        }
    }
}

/// Explicit segments do not depend on the zones: the same lines are armed on any screen.
pub proof fn law_segments_ignore_zones(lines: Seq<Line>, a: Seq<Zone>, b: Seq<Zone>)
    ensures
        requested_lines(SpecView::Segments(lines), a) == requested_lines(
            SpecView::Segments(lines),
            b,
        ),
{
}

/// A request for segments stands for those segments and nothing else, on any screen: as many
/// lines as segments, each with the label and the coordinates given at its index. It can be armed
/// wherever the ids do not run out.
pub proof fn law_segments_are_requested_verbatim(segments: Vec<Segment>, zones: Seq<Zone>)
    ensures
        ({
            let spec = BarrierSpec::Segments(segments)@;
            let lines = requested_lines(spec, zones);
            &&& lines.len() == segments@.len()
            &&& forall|i: int|
                0 <= i < segments@.len() ==> {
                    &&& (#[trigger] lines[i]).label == segments@[i].0@
                    &&& lines[i].position.0 == segments@[i].1
                    &&& lines[i].position.1 == segments@[i].2
                    &&& lines[i].position.2 == segments@[i].3
                    &&& lines[i].position.3 == segments@[i].4
                }
            &&& spec_fits(spec, zones) <==> segments@.len() <= 0xffff_ffff
        }),
{
}

/// Lines that are asked for as such are what is armed, all of them and as they are.
pub proof fn law_lines_are_requested_verbatim(lines: Seq<Line>, zones: Seq<Zone>)
    ensures
        requested_lines(SpecView::Segments(lines), zones).len() == lines.len(),
        forall|i: int|
            0 <= i < lines.len() ==> #[trigger] requested_lines(
                SpecView::Segments(lines),
                zones,
            )[i] == lines[i],
        requested_lines(SpecView::Segments(lines), zones) == lines,
        spec_fits(SpecView::Segments(lines), zones) <==> lines.len() <= 0xffff_ffff,
{
}

/// A request for edges stands for the edges of the given zones that the list names, and for all
/// edges where there is no list.
pub proof fn law_edges_are_requested_by_name(names: Vec<String>, zones: Seq<Zone>)
    ensures
        ({
            let spec = BarrierSpec::Edges(Some(names))@;
            let listed = Seq::new(names@.len(), |i: int| names@[i]@);
            &&& requested_lines(spec, zones) == edge_lines(zones, Some(listed))
            &&& spec_fits(spec, zones) <==> edges_fit(zones, Some(listed))
        }),
        requested_lines(BarrierSpec::Edges(None)@, zones) == edge_lines(zones, None),
        requested_lines(BarrierSpec::Edges(None)@, zones).len() == 4 * zones.len(),
        spec_fits(BarrierSpec::Edges(None)@, zones) <==> edges_fit(zones, None),
{
    law_edge_count(zones, None);
    assert(texts(names@) =~= Seq::new(names@.len(), |i: int| names@[i]@));
}

/// A request for edges goes through to the edges unchanged, whatever its filter.
pub proof fn law_filters_are_requested_verbatim(
    filter: Option<Seq<Seq<char>>>,
    zones: Seq<Zone>,
)
    ensures
        requested_lines(SpecView::Edges(filter), zones) == edge_lines(zones, filter),
        spec_fits(SpecView::Edges(filter), zones) <==> edges_fit(zones, filter),
        filter is None ==> requested_lines(SpecView::Edges(filter), zones).len() == 4
            * zones.len(),
{
    law_edge_count(zones, filter);
}

/// Two requests that differ stay different: what a request reads as keeps whether it names edges
/// or segments, and every name, label and coordinate.
pub proof fn law_requests_are_told_apart(a: BarrierSpec, b: BarrierSpec)
    requires
        a@ == b@,
    ensures
        match (a, b) {
            (BarrierSpec::Edges(None), BarrierSpec::Edges(None)) => true,
            (BarrierSpec::Edges(Some(x)), BarrierSpec::Edges(Some(y))) => {
                &&& x@.len() == y@.len()
                &&& forall|i: int| 0 <= i < x@.len() ==> (#[trigger] x@[i])@ == y@[i]@
            },
            (BarrierSpec::Segments(x), BarrierSpec::Segments(y)) => {
                &&& x@.len() == y@.len()
                &&& forall|i: int|
                    0 <= i < x@.len() ==> {
                        &&& (#[trigger] x@[i]).0@ == y@[i].0@
                        &&& x@[i].1 == y@[i].1
                        &&& x@[i].2 == y@[i].2
                        &&& x@[i].3 == y@[i].3
                        &&& x@[i].4 == y@[i].4
                    }
            },
            _ => false,
        },
{
    match (a, b) {
        (BarrierSpec::Edges(Some(x)), BarrierSpec::Edges(Some(y))) => {
            assert(texts(x@).len() == texts(y@).len());
            assert forall|i: int| 0 <= i < x@.len() implies (#[trigger] x@[i])@ == y@[i]@ by {
                assert(texts(x@)[i] == texts(y@)[i]);
            }
        },
        (BarrierSpec::Segments(x), BarrierSpec::Segments(y)) => {
            assert(segment_lines(x@).len() == segment_lines(y@).len());
            assert forall|i: int| 0 <= i < x@.len() implies {
                &&& (#[trigger] x@[i]).0@ == y@[i].0@
                &&& x@[i].1 == y@[i].1
                &&& x@[i].2 == y@[i].2
                &&& x@[i].3 == y@[i].3
                &&& x@[i].4 == y@[i].4
            } by {
                assert(segment_lines(x@)[i] == segment_lines(y@)[i]);
            }
        },
        _ => {},
    }
}

/// Entries are kept or dropped one by one, each by its own id, and those that are kept stay in
/// order.
pub proof fn law_entries_are_kept_one_by_one(
    map: Seq<(u32, Seq<char>)>,
    entry: (u32, Seq<char>),
    failed: Seq<u32>,
)
    ensures
        armed(seq![], failed) == Seq::<(u32, Seq<char>)>::empty(),
        failed.contains(entry.0) ==> armed(map.push(entry), failed) == armed(map, failed),
        !failed.contains(entry.0) ==> armed(map.push(entry), failed) == armed(map, failed).push(
            entry,
        ),
{
    reveal(Seq::filter);
    assert(map.push(entry).drop_last() =~= map);
}

/// What a session knows is what it holds, field by field; before the portal has said anything it
/// is nothing.
pub proof fn law_sessions_are_read_verbatim(session: SessionState)
    ensures
        session@.zones == session.zones@,
        session@.zone_set == session.zone_set,
        session@.barrier_map.len() == session.barrier_map@.len(),
        forall|i: int|
            0 <= i < session.barrier_map@.len() ==> {
                &&& (#[trigger] session@.barrier_map[i]).0 == session.barrier_map@[i].0
                &&& session@.barrier_map[i].1 == session.barrier_map@[i].1@
            },
        blank_session().zones.len() == 0,
        blank_session().barrier_map.len() == 0,
        blank_session().zone_set == 0,
{
}

} // verus!
