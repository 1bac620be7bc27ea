use pyinputcapture::barriers::{
    build_barriers, build_segment_barriers, can_build_barriers, can_build_segment_barriers,
    plan_edges, plan_segments, position_of, validate_segments, Edge, Segment, Zone,
};
use pyinputcapture::session::{build, can_build, retain_armed, BarrierSpec, SessionState};
use pyinputcapture::text::{i32_text, joined, quote, usize_text};

// Edge barriers

#[test]
fn barriers_single_zone() {
    let zones = vec![(1920, 1080, 0, 0)];
    let (barriers, barrier_map) = build_barriers(&zones, None);

    assert_eq!(barriers.len(), 4, "4 edges per zone");
    assert_eq!(barrier_map.len(), 4);
}

#[test]
fn barriers_two_zones() {
    let zones = vec![(1920, 1080, 0, 0), (2560, 1440, 1920, 0)];
    let (barriers, barrier_map) = build_barriers(&zones, None);

    assert_eq!(barriers.len(), 8, "4 edges x 2 zones");
    assert_eq!(barrier_map.len(), 8);
}

#[test]
fn barriers_empty_zones() {
    let (barriers, _) = build_barriers(&[], None);
    assert!(barriers.is_empty());
}

#[test]
fn barriers_selective_edges() {
    let zones = vec![(1920, 1080, 0, 0)];
    let edges = vec!["left".to_string(), "right".to_string()];
    let (barriers, barrier_map) = build_barriers(&zones, Some(&edges));

    assert_eq!(barriers.len(), 2, "only left + right");
    assert_eq!(barrier_map.len(), 2);
    assert_eq!(barrier_map[0].1, "left");
    assert_eq!(barrier_map[1].1, "right");
}

#[test]
fn barriers_selective_single_edge() {
    let zones = vec![(1920, 1080, 0, 0), (2560, 1440, 1920, 0)];
    let edges = vec!["top".to_string()];
    let (barriers, barrier_map) = build_barriers(&zones, Some(&edges));

    assert_eq!(barriers.len(), 2, "1 edge x 2 zones");
    assert!(barrier_map.iter().all(|(_, name)| name == "top"));
}

#[test]
fn barrier_ids_are_sequential_and_nonzero() {
    let zones = vec![(800, 600, 0, 0), (800, 600, 800, 0)];
    let (_, barrier_map) = build_barriers(&zones, None);

    for (i, (bid, _)) in barrier_map.iter().enumerate() {
        assert_eq!(*bid, (i as u32) + 1);
    }
}

#[test]
fn barriers_no_edges_arms_nothing() {
    // An empty filter must not fall through to "all edges": with no client anywhere the whole
    // screen border has to stay reachable.
    let zones = vec![(1920, 1080, 0, 0)];
    let (barriers, barrier_map) = build_barriers(&zones, Some(&[]));

    assert!(barriers.is_empty());
    assert!(barrier_map.is_empty());
}

#[test]
fn barriers_ids_stable_across_identical_calls() {
    // Barriers are re-issued on a live session, so an id must keep meaning the same edge.
    let zones = vec![(1920, 1080, 0, 0), (1280, 1024, 1920, 0)];
    let edges = vec!["left".to_string()];
    let (_, a) = build_barriers(&zones, Some(&edges));
    let (_, b) = build_barriers(&zones, Some(&edges));

    assert_eq!(a, b);
}

#[test]
fn edge_positions_are_exact() {
    let zone: Zone = (1920, 1080, -100, 50);
    assert_eq!(position_of(&zone, Edge::Top), (-100, 50, 1819, 50));
    assert_eq!(position_of(&zone, Edge::Bottom), (-100, 1130, 1819, 1130));
    assert_eq!(position_of(&zone, Edge::Left), (-100, 50, -100, 1129));
    assert_eq!(position_of(&zone, Edge::Right), (1820, 50, 1820, 1129));
}

#[test]
fn portal_barriers_carry_id_and_position() {
    let zones: Vec<Zone> = vec![(1920, 1080, 0, 0), (2560, 1440, 1920, 10)];
    let (barriers, map) = build_barriers(&zones, None);
    let shown: Vec<String> = barriers.iter().map(|b| format!("{b:?}")).collect();
    assert_eq!(
        shown,
        vec![
            "Barrier { barrier_id: 1, position: (0, 0, 1919, 0) }",
            "Barrier { barrier_id: 2, position: (0, 1080, 1919, 1080) }",
            "Barrier { barrier_id: 3, position: (0, 0, 0, 1079) }",
            "Barrier { barrier_id: 4, position: (1920, 0, 1920, 1079) }",
            "Barrier { barrier_id: 5, position: (1920, 10, 4479, 10) }",
            "Barrier { barrier_id: 6, position: (1920, 1450, 4479, 1450) }",
            "Barrier { barrier_id: 7, position: (1920, 10, 1920, 1449) }",
            "Barrier { barrier_id: 8, position: (4480, 10, 4480, 1449) }",
        ]
    );
    let labels: Vec<&str> = map.iter().map(|(_, l)| l.as_str()).collect();
    assert_eq!(
        labels,
        vec!["top", "bottom", "left", "right", "top", "bottom", "left", "right"]
    );
}

#[test]
fn filter_order_repetition_and_unknown_names_do_not_matter() {
    let zones: Vec<Zone> = vec![(640, 480, 0, 0)];
    let plain = vec!["top".to_string(), "right".to_string()];
    let messy = vec![
        "right".to_string(),
        "diagonal".to_string(),
        "top".to_string(),
        "right".to_string(),
        "Top".to_string(),
    ];
    assert_eq!(plan_edges(&zones, Some(&plain)), plan_edges(&zones, Some(&messy)));
    assert!(plan_edges(&zones, Some(&["middle".to_string()])).is_empty());
}

#[test]
fn planned_edges_skip_no_ids() {
    let zones: Vec<Zone> = vec![(10, 20, 0, 0), (30, 40, 10, 0)];
    let edges = vec!["right".to_string(), "top".to_string()];
    let plan = plan_edges(&zones, Some(&edges));
    let flat: Vec<(u32, &str, (i32, i32, i32, i32))> =
        plan.iter().map(|p| (p.id, p.label.as_str(), p.position)).collect();
    assert_eq!(
        flat,
        vec![
            (1, "top", (0, 0, 9, 0)),
            (2, "right", (10, 0, 10, 19)),
            (3, "top", (10, 0, 39, 0)),
            (4, "right", (40, 0, 40, 39)),
        ]
    );
}

#[test]
fn oversized_zones_wrap_like_signed_numbers() {
    // A width with the high bit set counts as a negative one.
    let zone: Zone = (0xffff_ffff, 1, 0, 0);
    assert!(can_build_barriers(&[zone], None));
    assert_eq!(position_of(&zone, Edge::Top), (0, 0, -2, 0));
    assert_eq!(position_of(&zone, Edge::Right), (-1, 0, -1, 0));
}

#[test]
fn zones_at_the_limits_are_told_apart() {
    assert!(can_build_barriers(&[(0x7fff_ffff, 1, 0, 0)], None));
    assert!(!can_build_barriers(&[(0x7fff_ffff, 1, 1, 0)], None));
    assert!(can_build_barriers(&[(1, 1, i32::MAX - 1, i32::MAX - 1)], None));
    assert!(!can_build_barriers(&[(1, 1, i32::MAX, 0)], None));
    assert!(!can_build_barriers(&[(1, 1, 0, i32::MAX)], None));
    assert!(can_build_barriers(&[(1, 1, i32::MIN, i32::MIN)], None));
    // With no extent at the lowest coordinate the inclusive end would lie below it.
    assert!(!can_build_barriers(&[(0, 1, i32::MIN, 0)], None));
    assert!(!can_build_barriers(&[(1, 0, 0, i32::MIN)], None));
    // The filter does not excuse a zone whose edges cannot be computed.
    assert!(!can_build_barriers(&[(1, 1, i32::MAX, 0)], Some(&[])));
    assert!(can_build_barriers(&[], None));
}

// Segment barriers

#[test]
fn segments_are_built_verbatim_and_labelled() {
    let segments = vec![
        ("left".to_string(), 0, 300, 0, 800),
        ("top".to_string(), 100, 0, 900, 0),
    ];
    let (barriers, barrier_map) = build_segment_barriers(&segments);

    assert_eq!(barriers.len(), 2);
    assert_eq!(barrier_map[0].1, "left");
    assert_eq!(barrier_map[1].1, "top");
    assert!(barrier_map.iter().all(|(bid, _)| *bid != 0));
    assert_eq!(
        format!("{barriers:?}"),
        "[Barrier { barrier_id: 1, position: (0, 300, 0, 800) }, \
         Barrier { barrier_id: 2, position: (100, 0, 900, 0) }]"
    );
}

#[test]
fn segments_partial_edge_is_shorter_than_the_zone_edge() {
    // A client abutting only part of an edge must not arm a barrier along the rest of it.
    let zones = vec![(1920, 1080, 0, 0)];
    let (whole_edge, _) = build_barriers(&zones, Some(&["left".to_string()]));
    let (partial, map) = build_segment_barriers(&[("left".to_string(), 0, 300, 0, 800)]);

    assert_eq!(whole_edge.len(), 1);
    assert_eq!(partial.len(), 1);
    assert_eq!(map[0].1, "left");
}

#[test]
fn segments_reject_non_axis_aligned_naming_the_index() {
    let segments = vec![
        ("left".to_string(), 0, 0, 0, 500),
        ("diagonal".to_string(), 0, 0, 500, 500),
        ("right".to_string(), 1920, 0, 1920, 500),
    ];
    let err = validate_segments(&segments).unwrap_err();

    assert!(err.contains("segment 1"), "{err}");
    assert!(err.contains("diagonal"), "{err}");
    assert_eq!(
        err,
        "segment 1 (\"diagonal\") is not axis-aligned: (0, 0) -> (500, 500); \
         barriers must be horizontal or vertical"
    );
}

#[test]
fn segments_accept_horizontal_and_vertical() {
    let segments = vec![
        ("left".to_string(), 0, 0, 0, 500),
        ("top".to_string(), 0, 0, 500, 0),
        ("point".to_string(), 7, 7, 7, 7),
    ];
    assert!(validate_segments(&segments).is_ok());
}

#[test]
fn segments_single_point_is_accepted() {
    let (barriers, _) = build_segment_barriers(&[("left".to_string(), 0, 42, 0, 42)]);
    assert_eq!(barriers.len(), 1);
}

#[test]
fn segments_empty_arms_nothing() {
    let (barriers, barrier_map) = build_segment_barriers(&[]);
    assert!(barriers.is_empty());
    assert!(barrier_map.is_empty());
}

#[test]
fn segments_ids_are_sequential_and_nonzero() {
    let segments = vec![
        ("left".to_string(), 0, 0, 0, 100),
        ("left".to_string(), 0, 200, 0, 300),
        ("top".to_string(), 0, 0, 100, 0),
    ];
    let (_, barrier_map) = build_segment_barriers(&segments);

    for (i, (bid, _)) in barrier_map.iter().enumerate() {
        assert_eq!(*bid, (i as u32) + 1);
    }
}

#[test]
fn segments_allow_several_disjoint_spans_on_one_edge() {
    let segments = vec![
        ("left".to_string(), 0, 0, 0, 300),
        ("left".to_string(), 0, 700, 0, 1000),
    ];
    let (barriers, barrier_map) = build_segment_barriers(&segments);

    assert_eq!(barriers.len(), 2);
    assert!(barrier_map.iter().all(|(_, name)| name == "left"));
    assert_ne!(barrier_map[0].0, barrier_map[1].0);
}

#[test]
fn first_skewed_segment_is_named_with_its_label_escaped() {
    let segments: Vec<Segment> = vec![
        ("say \"hi\"\n".to_string(), -5, i32::MIN, 10, i32::MAX),
        ("later".to_string(), 0, 0, 1, 1),
    ];
    assert_eq!(
        validate_segments(&segments).unwrap_err(),
        "segment 0 (\"say \\\"hi\\\"\\n\") is not axis-aligned: (-5, -2147483648) -> \
         (10, 2147483647); barriers must be horizontal or vertical"
    );
}

#[test]
fn planned_segments_keep_their_coordinates() {
    let segments: Vec<Segment> = vec![("a".to_string(), 1, 2, 1, 4), ("b".to_string(), 9, 8, 7, 8)];
    let plan = plan_segments(&segments);
    assert_eq!((plan[0].id, plan[0].position), (1, (1, 2, 1, 4)));
    assert_eq!((plan[1].id, plan[1].position), (2, (9, 8, 7, 8)));
    assert!(can_build_segment_barriers(&segments));
}

// Text

#[test]
fn numbers_and_labels_are_rendered_like_std() {
    for n in [0usize, 7, 9, 10, 99, 100, 1234567890, usize::MAX] {
        assert_eq!(usize_text(n), n.to_string());
    }
    for n in [0i32, 1, -1, 10, -10, 1080, i32::MAX, i32::MIN] {
        assert_eq!(i32_text(n), n.to_string());
    }
    for s in ["", "left", "a\"b", "tab\t", "\u{7f}", "\u{e9}\u{1f600}"] {
        assert_eq!(quote(&s.to_string()), format!("{s:?}"));
    }
    assert_eq!(joined("zones request: ", &"gone".to_string()), "zones request: gone");
}

// Specifications and session state

#[test]
fn specifications_build_what_they_name() {
    let zones: Vec<Zone> = vec![(100, 50, 0, 0)];
    let all = BarrierSpec::Edges(None);
    let none = BarrierSpec::Edges(Some(vec![]));
    let left = BarrierSpec::Edges(Some(vec!["left".to_string()]));
    let spans = BarrierSpec::Segments(vec![("x".to_string(), 0, 1, 0, 2)]);
    assert_eq!(build(&all, &zones).1.len(), 4);
    assert!(build(&none, &zones).0.is_empty());
    assert_eq!(build(&left, &zones).1, vec![(1, "left".to_string())]);
    assert_eq!(build(&spans, &zones).1, vec![(1, "x".to_string())]);
    assert_eq!(build(&spans, &[]).1, build(&spans, &zones).1);
    assert!(can_build(&all, &zones));
    assert!(!can_build(&all, &[(1, 1, i32::MAX, 0)]));
    assert!(can_build(&spans, &[(1, 1, i32::MAX, 0)]));
}

#[test]
fn rejected_barriers_leave_the_map() {
    let map = vec![
        (1, "top".to_string()),
        (2, "left".to_string()),
        (3, "right".to_string()),
    ];
    assert_eq!(
        retain_armed(&map, &[2, 9, 2]),
        vec![(1, "top".to_string()), (3, "right".to_string())]
    );
    assert_eq!(retain_armed(&map, &[]), map);
    assert!(retain_armed(&map, &[3, 2, 1]).is_empty());
}

#[test]
fn session_state_records_zones_and_barriers() {
    let mut state = SessionState::default();
    assert!(state.zones.is_empty());
    assert!(state.barrier_map.is_empty());
    assert_eq!(state.zone_set, 0);

    let requested = vec![(1, "top".to_string()), (2, "left".to_string())];
    assert_eq!(state.record_armed(&requested, &[1]), vec![(2, "left".to_string())]);
    state.record_zones(vec![(3, 4, 5, 6)], 77);
    assert_eq!(state.zones, vec![(3, 4, 5, 6)]);
    assert_eq!(state.zone_set, 77);
    assert_eq!(state.barrier_map, vec![(2, "left".to_string())]);
}
