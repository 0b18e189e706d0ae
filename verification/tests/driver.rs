use tmp006_core::callback::{AppId, Callback};
use tmp006_core::fakes::{FakeTimer, ScriptedBus, ScriptedGateway};
use tmp006_core::tmp006::{ERR_NOT_ENABLED, ERR_UNSUPPORTED, SAMPLE_INTERVAL, SUCCESS, TMP006};

fn fresh_driver(script: Vec<(u8, u8)>) -> TMP006<ScriptedBus, FakeTimer> {
    TMP006::new(ScriptedBus::new(script), FakeTimer::new())
}

#[test]
fn subscribe_while_disabled_is_refused() {
    let mut driver = fresh_driver(vec![]);
    let mut gateway = ScriptedGateway::new(true);
    let upcall = Callback::new(AppId::new(1), 0xDA7A, 0x2000);
    let r = driver.subscribe(0, upcall, &mut gateway);
    assert_eq!(r, ERR_NOT_ENABLED);
    assert_eq!(driver.last_reading(), None);
    assert!(!driver.has_pending());
    assert_eq!(gateway.submission_count(), 0);
}

#[test]
fn unknown_command_is_inert() {
    let mut driver = fresh_driver(vec![]);
    let r = driver.command(7, 0);
    assert_eq!(r, ERR_UNSUPPORTED);
    assert!(!driver.is_enabled());
    assert!(!driver.bus_ref().is_powered());
    assert_eq!(driver.bus_ref().write_count(), 0);
    assert_eq!(driver.timer_ref().current_period(), None);
}

#[test]
fn unknown_event_is_refused() {
    let mut driver = fresh_driver(vec![]);
    assert_eq!(driver.command(0, 0), SUCCESS);
    let mut gateway = ScriptedGateway::new(true);
    let upcall = Callback::new(AppId::new(1), 0, 0x2000);
    let r = driver.subscribe(9, upcall, &mut gateway);
    assert_eq!(r, ERR_UNSUPPORTED);
    assert!(!driver.has_pending());
    assert_eq!(gateway.submission_count(), 0);
}

#[test]
fn enable_powers_configures_and_arms() {
    let mut driver = fresh_driver(vec![]);
    let r = driver.command(0, 0);
    assert_eq!(r, SUCCESS);
    assert!(driver.is_enabled());
    assert!(driver.bus_ref().is_powered());
    assert_eq!(driver.timer_ref().current_period(), Some(SAMPLE_INTERVAL));
    assert_eq!(driver.bus_ref().write_count(), 1);
    let w = driver.bus_ref().write_at(0);
    assert_eq!(w.addr, 0x40);
    assert_eq!(w.data, vec![0x02, 0x70, 0x00]);
}

#[test]
fn not_ready_tick_is_quiet() {
    let script = vec![(0x70, 0x00), (0x99, 0x99), (0x99, 0x99)];
    let mut driver = fresh_driver(script);
    let mut gateway = ScriptedGateway::new(true);
    assert_eq!(driver.command(0, 0), SUCCESS);
    let writes_before = driver.bus_ref().write_count();
    driver.fired(0, &mut gateway);
    // Only the status read happened; no register was selected or read.
    assert_eq!(driver.bus_ref().remaining(), 2);
    assert_eq!(driver.bus_ref().write_count(), writes_before);
    assert_eq!(driver.last_reading(), None);
    assert!(!driver.has_pending());
    assert_eq!(gateway.submission_count(), 0);
}

#[test]
fn one_delivery_across_enable_tick_subscribe_tick() {
    let script = vec![
        (0x00, 0x00), // status: not ready
        (0x00, 0x84), // status: ready
        (0xAA, 0xBB), // sensor voltage, reserved
        (0x04, 0x00), // die temperature, big-endian
    ];
    let mut driver = fresh_driver(script);
    let mut gateway = ScriptedGateway::new(true);
    assert_eq!(driver.command(0, 0), SUCCESS);
    driver.fired(0, &mut gateway);
    assert_eq!(gateway.submission_count(), 0);
    let upcall = Callback::new(AppId::new(3), 0xDA7A, 0x2000);
    assert_eq!(driver.subscribe(0, upcall, &mut gateway), SUCCESS);
    assert!(driver.has_pending());
    driver.fired(0, &mut gateway);
    assert_eq!(gateway.submission_count(), 1);
    let req = gateway.submission_at(0);
    assert_eq!(req.r0, 0x0100);
    assert_eq!(req.r1, 0);
    assert_eq!(req.r2, 0);
    assert_eq!(req.r3, 0xDA7A);
    assert_eq!(req.pc, 0x2000);
    assert_eq!(req.app.idx(), 3);
    assert!(!driver.has_pending());
    assert_eq!(driver.last_reading(), Some(0x0100));
}

#[test]
fn cached_reading_is_delivered_synchronously() {
    let script = vec![
        (0x00, 0x80), // status: ready
        (0x00, 0x00), // sensor voltage, reserved
        (0x04, 0x00), // die temperature
        (0x00, 0x80), // status: ready (second tick)
        (0x00, 0x00),
        (0x08, 0x00),
    ];
    let mut driver = fresh_driver(script);
    let mut gateway = ScriptedGateway::new(true);
    assert_eq!(driver.command(0, 0), SUCCESS);
    driver.fired(0, &mut gateway);
    assert_eq!(driver.last_reading(), Some(0x0100));
    let upcall = Callback::new(AppId::new(2), 5, 0x4000);
    assert_eq!(driver.subscribe(0, upcall, &mut gateway), SUCCESS);
    // Delivered at once with the cached value; the slot stays empty.
    assert_eq!(gateway.submission_count(), 1);
    assert_eq!(gateway.submission_at(0).r0, 0x0100);
    assert_eq!(gateway.submission_at(0).r3, 5);
    assert!(!driver.has_pending());
    // The next tick refreshes the cache but delivers nothing more.
    driver.fired(0, &mut gateway);
    assert_eq!(gateway.submission_count(), 1);
    assert_eq!(driver.last_reading(), Some(0x0200));
}

#[test]
fn second_registration_wins() {
    let script = vec![
        (0x00, 0xFF), // status: ready
        (0x11, 0x22), // sensor voltage, reserved
        (0x04, 0x00), // die temperature
    ];
    let mut driver = fresh_driver(script);
    let mut gateway = ScriptedGateway::new(true);
    assert_eq!(driver.command(0, 0), SUCCESS);
    let first = Callback::new(AppId::new(1), 111, 0x1000);
    let second = Callback::new(AppId::new(2), 222, 0x2000);
    assert_eq!(driver.subscribe(0, first, &mut gateway), SUCCESS);
    assert_eq!(driver.subscribe(0, second, &mut gateway), SUCCESS);
    driver.fired(0, &mut gateway);
    // Only the second upcall was ever submitted.
    assert_eq!(gateway.submission_count(), 1);
    let req = gateway.submission_at(0);
    assert_eq!(req.r3, 222);
    assert_eq!(req.pc, 0x2000);
    assert_eq!(req.app.idx(), 2);
    assert!(!driver.has_pending());
}

#[test]
fn raw_word_shifts_to_fixed_point_reading() {
    let script = vec![(0x00, 0x80), (0x00, 0x00), (0x04, 0x00)];
    let mut driver = fresh_driver(script);
    let mut gateway = ScriptedGateway::new(true);
    assert_eq!(driver.command(0, 0), SUCCESS);
    driver.fired(0, &mut gateway);
    // Unsigned word 0x0400, arithmetically shifted right by 2: 0x0100,
    // that is 256 thirty-seconds of a unit.
    assert_eq!(driver.last_reading(), Some(0x0100));
}

#[test]
fn negative_reading_keeps_its_sign() {
    let script = vec![(0x00, 0x80), (0x00, 0x00), (0xFF, 0xFC)];
    let mut driver = fresh_driver(script);
    let mut gateway = ScriptedGateway::new(true);
    assert_eq!(driver.command(0, 0), SUCCESS);
    driver.fired(0, &mut gateway);
    // Word 0xFFFC is -4 as a signed word; the shift preserves the sign.
    assert_eq!(driver.last_reading(), Some(-1));
}

#[test]
fn rejected_delivery_is_not_retried() {
    let script = vec![
        (0x00, 0x80), // status: ready
        (0x00, 0x00),
        (0x04, 0x00),
        (0x00, 0x80), // status: ready (second tick)
        (0x00, 0x00),
        (0x05, 0x00),
    ];
    let mut driver = fresh_driver(script);
    let mut gateway = ScriptedGateway::new(false); // the gateway rejects
    assert_eq!(driver.command(0, 0), SUCCESS);
    let upcall = Callback::new(AppId::new(4), 9, 0x3000);
    assert_eq!(driver.subscribe(0, upcall, &mut gateway), SUCCESS);
    driver.fired(0, &mut gateway);
    // The upcall was consumed before the gateway answered: the slot is
    // empty, the one submission stands, and nothing is re-queued.
    assert_eq!(gateway.submission_count(), 1);
    assert!(!driver.has_pending());
    assert_eq!(driver.last_reading(), Some(0x0100));
    driver.fired(0, &mut gateway);
    assert_eq!(gateway.submission_count(), 1);
    assert_eq!(driver.last_reading(), Some(0x0140));
}
