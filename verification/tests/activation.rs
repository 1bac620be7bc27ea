use pyinputcapture::activation::{
    activation_writes, current_activation, generation_writes, reset_writes, ActivatedBarrier,
    Activation, MemoryOrder, SharedActivation, SharedWrite, Update,
};

fn relaxed(update: Update) -> SharedWrite {
    SharedWrite { update, order: MemoryOrder::Relaxed }
}

fn released(update: Update) -> SharedWrite {
    SharedWrite { update, order: MemoryOrder::Release }
}

#[test]
fn shared_activation_new_is_zero() {
    let s = SharedActivation::new();
    assert_eq!(s.activation_id, 0);
    assert_eq!(s.barrier_id, 0);
    assert_eq!(s.cursor_pos_x, 0);
    assert_eq!(s.cursor_pos_y, 0);
    assert_eq!(s.zones_generation, 0);
}

#[test]
fn shared_activation_reset() {
    let mut s = SharedActivation::new();
    s.activation_id = 42;
    s.barrier_id = 7;
    s.reset();
    assert_eq!(s.activation_id, 0);
    assert_eq!(s.barrier_id, 0);
}

#[test]
fn shared_activation_store_load_ordering() {
    let mut s = SharedActivation::new();

    let writes = activation_writes(&Activation {
        activation_id: Some(1),
        barrier_id: Some(ActivatedBarrier::Barrier(3)),
        cursor_position: Some((100.0_f64.to_bits(), 200.0_f64.to_bits())),
    });
    // The id comes last, with release order; until then it does not move.
    for w in &writes[..writes.len() - 1] {
        assert_eq!(w.order, MemoryOrder::Relaxed);
        s.apply(w);
        assert_eq!(s.activation_id, 0);
    }
    assert_eq!(writes[writes.len() - 1], released(Update::ActivationId(1)));
    s.apply(&writes[writes.len() - 1]);

    let aid = s.activation_id;
    assert_eq!(aid, 1);
    assert_eq!(s.barrier_id, 3);
    assert_eq!(f64::from_bits(s.cursor_pos_x), 100.0);
    assert_eq!(f64::from_bits(s.cursor_pos_y), 200.0);
}

#[test]
fn activation_id_zero_means_none() {
    let s = SharedActivation::new();
    assert_eq!(current_activation(s.activation_id), None);
    assert_eq!(current_activation(5), Some(5));
    assert_eq!(current_activation(u32::MAX), Some(u32::MAX));
}

#[test]
fn activation_writes_are_exact() {
    let full = Activation {
        activation_id: Some(9),
        barrier_id: Some(ActivatedBarrier::Barrier(2)),
        cursor_position: Some((11, 12)),
    };
    assert_eq!(
        activation_writes(&full),
        vec![
            relaxed(Update::BarrierId(2)),
            relaxed(Update::CursorX(11)),
            relaxed(Update::CursorY(12)),
            released(Update::ActivationId(9)),
        ]
    );
    let empty = Activation { activation_id: None, barrier_id: None, cursor_position: None };
    assert!(activation_writes(&empty).is_empty());
}

#[test]
fn unknown_barrier_keeps_the_last_one() {
    let mut s = SharedActivation::new();
    s.barrier_id = 4;
    s.apply_all(&activation_writes(&Activation {
        activation_id: Some(8),
        barrier_id: Some(ActivatedBarrier::UnknownBarrier),
        cursor_position: None,
    }));
    assert_eq!(s.barrier_id, 4);
    assert_eq!(s.activation_id, 8);
    assert_eq!(s.cursor_pos_x, 0);
}

#[test]
fn reset_keeps_the_cursor() {
    let mut s = SharedActivation {
        activation_id: 1,
        barrier_id: 2,
        cursor_pos_x: 3,
        cursor_pos_y: 4,
        zones_generation: 5,
    };
    s.reset();
    assert_eq!(
        s,
        SharedActivation {
            activation_id: 0,
            barrier_id: 0,
            cursor_pos_x: 3,
            cursor_pos_y: 4,
            zones_generation: 0,
        }
    );
    assert!(reset_writes().iter().all(|w| w.order == MemoryOrder::Relaxed));
}

#[test]
fn generation_counts_up_and_wraps() {
    let mut s = SharedActivation::new();
    assert_eq!(generation_writes(), vec![released(Update::NextGeneration)]);
    s.apply_all(&generation_writes());
    s.apply_all(&generation_writes());
    assert_eq!(s.zones_generation, 2);
    s.zones_generation = u32::MAX;
    s.apply_all(&generation_writes());
    assert_eq!(s.zones_generation, 0);
}
