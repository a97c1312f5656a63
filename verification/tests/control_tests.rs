use esp32cam::cell::BroadcastCell;
use esp32cam::control::{
    select, ControlEvent, Controller, Evaluation, Setpoint, CONTROL_PERIOD_MS,
};
use esp32cam::indicator::{toggle_interval_ms, Indicator, Level, LED_PERIOD_MS};

#[test]
fn control_period_is_one_second() {
    assert_eq!(CONTROL_PERIOD_MS, 1000);
}

#[test]
fn controller_starts_without_target() {
    let mut controller = Controller::new();
    assert_eq!(controller.target, None);
    let evaluation = controller.handle(ControlEvent::Tick);
    assert_eq!(evaluation, Evaluation { cause: ControlEvent::Tick, target: None });
}

#[test]
fn update_sets_target_and_tick_keeps_it() {
    let mut controller = Controller::new();
    let first = Setpoint { depth_bits: 1.5f32.to_bits() };
    let second = Setpoint { depth_bits: (-0.25f32).to_bits() };
    assert_eq!(
        controller.handle(ControlEvent::Update(first)),
        Evaluation { cause: ControlEvent::Update(first), target: Some(first) }
    );
    assert_eq!(
        controller.handle(ControlEvent::Tick),
        Evaluation { cause: ControlEvent::Tick, target: Some(first) }
    );
    assert_eq!(
        controller.handle(ControlEvent::Update(second)),
        Evaluation { cause: ControlEvent::Update(second), target: Some(second) }
    );
    assert_eq!(controller.target, Some(second));
    assert_eq!(f32::from_bits(controller.target.unwrap().depth_bits), -0.25);
}

#[test]
fn select_suspends_when_nothing_is_ready() {
    let mut cell: BroadcastCell<Setpoint> = BroadcastCell::new();
    let mut reader = cell.subscribe().unwrap();
    assert_eq!(select(false, &cell, &mut reader), None);
    assert_eq!(select(true, &cell, &mut reader), Some(ControlEvent::Tick));
}

#[test]
fn select_prefers_tick_and_keeps_setpoint_pending() {
    let mut cell: BroadcastCell<Setpoint> = BroadcastCell::new();
    let mut reader = cell.subscribe().unwrap();
    let setpoint = Setpoint { depth_bits: 42 };
    cell.publish(setpoint);
    assert_eq!(select(true, &cell, &mut reader), Some(ControlEvent::Tick));
    assert_eq!(reader.seen_version(), 0);
    assert_eq!(select(true, &cell, &mut reader), Some(ControlEvent::Tick));
    assert_eq!(select(false, &cell, &mut reader), Some(ControlEvent::Update(setpoint)));
    assert_eq!(reader.seen_version(), 1);
    assert_eq!(select(false, &cell, &mut reader), None);
}

#[test]
fn setpoint_published_between_ticks_is_processed_by_next_tick() {
    let mut cell: BroadcastCell<Setpoint> = BroadcastCell::new();
    let mut reader = cell.subscribe().unwrap();
    let mut controller = Controller::new();
    let mut processed = Vec::new();

    // Each period: some publishes, then rounds until the task suspends,
    // the first of them with the tick due.
    let periods: [&[u32]; 5] = [&[], &[7], &[], &[8, 9, 10], &[11]];
    for published in periods {
        for bits in published {
            cell.publish(Setpoint { depth_bits: *bits });
        }
        let mut tick_due = true;
        while let Some(event) = select(tick_due, &cell, &mut reader) {
            tick_due = false;
            let evaluation = controller.handle(event);
            if let ControlEvent::Update(setpoint) = evaluation.cause {
                processed.push(setpoint.depth_bits);
            }
        }
        assert_eq!(controller.target, cell.poll());
    }
    assert_eq!(processed, vec![7, 10, 11]);
}

#[test]
fn indicator_toggles_every_half_period() {
    assert_eq!(LED_PERIOD_MS, 1000);
    assert_eq!(toggle_interval_ms(), 500);
}

#[test]
fn indicator_alternates_levels() {
    let mut indicator = Indicator::new();
    assert_eq!(indicator.level, Level::Off);
    let mut on = 0;
    for n in 1..=100u32 {
        let level = indicator.tick();
        assert_eq!(level, indicator.level);
        assert_eq!(level == Level::On, n % 2 == 1);
        if level == Level::On {
            on += 1;
        }
    }
    assert_eq!(on, 50);
    assert_eq!(Level::Off.toggled(), Level::On);
    assert_eq!(Level::On.toggled(), Level::Off);
}
