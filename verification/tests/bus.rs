use ylab::bus::{BusError, SharedBus};

#[test]
fn bus_without_controller_is_unavailable() {
    let mut bus: SharedBus<u8> = SharedBus::new();
    assert_eq!(bus.try_acquire(), Err(BusError::Unavailable));
    assert_eq!(bus.try_acquire(), Err(BusError::Unavailable));
    assert_eq!(bus.release(1), Err(1));
    assert_eq!(bus.transact(|c: u8| (c, 1)), Err(BusError::Unavailable));
}

#[test]
fn one_holder_at_a_time() {
    let mut bus = SharedBus::new();
    assert_eq!(bus.assign("i2c0"), Ok(()));
    assert_eq!(bus.try_acquire(), Ok("i2c0"));
    assert_eq!(bus.try_acquire(), Err(BusError::Busy));
    assert_eq!(bus.try_acquire(), Err(BusError::Busy));
    assert_eq!(bus.release("i2c0"), Ok(()));
    assert_eq!(bus.try_acquire(), Ok("i2c0"));
}

#[test]
fn controller_is_assigned_once() {
    let mut bus = SharedBus::new();
    assert_eq!(bus.assign(1u8), Ok(()));
    assert_eq!(bus.assign(2), Err(2));
    assert_eq!(bus.try_acquire(), Ok(1));
    assert_eq!(bus.assign(3), Err(3));
    assert_eq!(bus.release(1), Ok(()));
    assert_eq!(bus.release(9), Err(9));
    assert_eq!(bus.try_acquire(), Ok(1));
}

#[test]
fn transaction_frees_the_bus_whatever_it_reports() {
    let mut bus = SharedBus::new();
    bus.assign(10u32).unwrap();
    let failed: Result<Result<u8, &str>, BusError> = bus.transact(|c: u32| (c + 1, Err("nack")));
    assert_eq!(failed, Ok(Err("nack")));
    let ok: Result<Result<u32, &str>, BusError> = bus.transact(|c: u32| (c + 1, Ok(c)));
    assert_eq!(ok, Ok(Ok(11)));
    assert_eq!(bus.try_acquire(), Ok(12));
}

#[test]
fn transaction_on_a_held_bus_is_not_run() {
    let mut bus = SharedBus::new();
    bus.assign(1u8).unwrap();
    let held = bus.try_acquire().unwrap();
    assert_eq!(bus.transact(|c: u8| (c, 5)), Err(BusError::Busy));
    bus.release(held).unwrap();
    assert_eq!(bus.transact(|c: u8| (c, 5)), Ok(5));
}
