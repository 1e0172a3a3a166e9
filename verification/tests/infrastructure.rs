use backyard_rain::control::logic_tick;
use backyard_rain::handoff::HandoffQueue;
use backyard_rain::latest::LatestCell;
use backyard_rain::mux::{MuxPhase, MuxState, ZSwitch};
use backyard_rain::signal::InputValue;

#[test]
fn test_queue_blocks_producer_when_full() {
    let mut queue: HandoffQueue<u32> = HandoffQueue::new(4);
    for item in 0..4u32 {
        assert!(queue.try_push(item));
    }
    // capacity + 1: the producer is held off until a pop makes room
    assert!(!queue.try_push(4));
    assert_eq!(queue.len(), 4);
    assert_eq!(queue.try_pop(), Some(0));
    assert!(queue.try_push(4));

    // items come back in push order
    for expected in 1..=4u32 {
        assert_eq!(queue.try_pop(), Some(expected));
    }
    assert_eq!(queue.try_pop(), None);
}

#[test]
fn test_latest_cell_delivers_once_per_reader() {
    let mut cell: LatestCell<u32> = LatestCell::new(2);

    // nothing published yet
    assert_eq!(cell.try_get(0), None);
    assert_eq!(cell.try_get(1), None);

    // each reader sees one publish exactly once
    cell.publish(7);
    assert_eq!(cell.try_get(0), Some(7));
    assert_eq!(cell.try_get(0), None);
    assert_eq!(cell.try_get(1), Some(7));
    assert_eq!(cell.try_get(1), None);

    // a slow reader only sees the most recent value, once
    cell.publish(8);
    cell.publish(9);
    assert_eq!(cell.try_get(0), Some(9));
    assert_eq!(cell.try_get(0), None);
    assert_eq!(cell.try_get(1), Some(9));
}

#[test]
fn test_mux_cycle_aggregates_centered_readings() {
    let mut state = MuxState::default();
    state.begin_cycle();

    state.apply_phase(MuxPhase::MainAndCv1, Some(2048), Some(0));
    state.apply_phase(MuxPhase::Cv1Probe, None, Some(0));
    state.apply_phase(MuxPhase::XAndCv2, Some(2048), Some(0));
    state.apply_phase(MuxPhase::Cv2Probe, None, Some(0));
    state.apply_phase(MuxPhase::YKnob, Some(2048), None);
    state.apply_phase(MuxPhase::ZRead, Some(3500), None);

    assert_eq!(state.sequence_counter, 1);
    assert_eq!(state.main_knob.to_clamped(), 0);
    assert_eq!(state.x_knob.to_clamped(), 0);
    assert_eq!(state.y_knob.to_clamped(), 0);
    assert_eq!(state.zswitch, ZSwitch::On);
    // the CV jacks read zero; their sources are marked inverted, so the
    // recentred reading comes back negated (and saturates at the rail)
    assert_eq!(state.cv1.raw.to_clamped(), 2047);
    assert_eq!(state.cv1.probe.to_clamped(), 2047);
    assert_eq!(state.cv2.raw.to_clamped(), 2047);
}

#[test]
fn test_mux_failed_reading_keeps_stale_value() {
    let mut state = MuxState::default();
    state.apply_phase(MuxPhase::MainAndCv1, Some(4095), Some(0));
    assert_eq!(state.main_knob.to_clamped(), 2047);
    // a failed conversion leaves the previous value in place
    state.apply_phase(MuxPhase::MainAndCv1, None, Some(0));
    assert_eq!(state.main_knob.to_clamped(), 2047);
}

#[test]
fn test_mux_phase_round_robin() {
    let mut phase = MuxPhase::first();
    assert_eq!(phase, MuxPhase::MainAndCv1);
    let expected = [
        MuxPhase::Cv1Probe,
        MuxPhase::XAndCv2,
        MuxPhase::Cv2Probe,
        MuxPhase::YKnob,
        MuxPhase::ZRead,
        MuxPhase::MainAndCv1,
    ];
    for next in expected {
        phase = phase.next();
        assert_eq!(phase, next);
    }
    assert_eq!(MuxPhase::MainAndCv1.select_lines(), Some((false, false)));
    assert_eq!(MuxPhase::Cv1Probe.select_lines(), None);
    assert_eq!(MuxPhase::XAndCv2.select_lines(), Some((true, false)));
    assert_eq!(MuxPhase::YKnob.select_lines(), Some((false, true)));
    assert_eq!(MuxPhase::ZRead.select_lines(), Some((true, true)));
    assert_eq!(MuxPhase::Cv1Probe.settle_micros(), 200);
    assert_eq!(MuxPhase::YKnob.settle_micros(), 20);
}

#[test]
fn test_zswitch_thresholds() {
    let mut state = MuxState::default();
    state.apply_phase(MuxPhase::ZRead, Some(999), None);
    assert_eq!(state.zswitch, ZSwitch::Momentary);
    state.apply_phase(MuxPhase::ZRead, Some(1000), None);
    assert_eq!(state.zswitch, ZSwitch::Off);
    state.apply_phase(MuxPhase::ZRead, Some(3000), None);
    assert_eq!(state.zswitch, ZSwitch::Off);
    state.apply_phase(MuxPhase::ZRead, Some(3001), None);
    assert_eq!(state.zswitch, ZSwitch::On);
}

#[test]
fn test_logic_tick_publishes_main_knob() {
    let mut mux_cell: LatestCell<MuxState> = LatestCell::new(2);
    let mut intensity_cell: LatestCell<InputValue> = LatestCell::new(2);

    // no mux snapshot yet: the intensity stays unpublished
    logic_tick(&mut mux_cell, 0, &mut intensity_cell);
    assert_eq!(intensity_cell.try_get(0), None);

    let mut state = MuxState::default();
    state.apply_phase(MuxPhase::MainAndCv1, Some(4095), Some(0));
    mux_cell.publish(state);

    logic_tick(&mut mux_cell, 0, &mut intensity_cell);
    let intensity = intensity_cell.try_get(0).unwrap();
    assert_eq!(intensity.to_clamped(), 2047);

    // the snapshot was consumed: a second tick publishes nothing new
    logic_tick(&mut mux_cell, 0, &mut intensity_cell);
    assert_eq!(intensity_cell.try_get(0), None);
}
