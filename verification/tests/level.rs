use mylib::framework::Observer;
use mylib::framework::SensorGroupInner;
use mylib::framework::SensorInner;
use mylib::level::check;
use mylib::level::LevelHyst;
use mylib::level::LevelState;

#[test]
fn test_over() {
    assert_eq!(check(5, 5), LevelState::UNDER);
}

#[test]
fn test_under() {
    assert_eq!(check(5, 4), LevelState::OVER);
}

#[test]
fn test_overlimit() {
    let mut dut = LevelHyst::new(100, 70, LevelState::UNDER);

    assert_eq!(dut.check(100), LevelState::UNDER);
    assert_eq!(dut.get_state(), LevelState::UNDER);

    assert_eq!(dut.check(101), LevelState::OVER);
    assert_eq!(dut.get_state(), LevelState::OVER);

    assert_eq!(dut.check(71), LevelState::OVER);
    assert_eq!(dut.get_state(), LevelState::OVER);

    assert_eq!(dut.check(70), LevelState::UNDER);
    assert_eq!(dut.get_state(), LevelState::UNDER);
}

#[test]
fn test_underlimit() {
    let mut dut = LevelHyst::new(70, 100, LevelState::OVER);

    assert_eq!(dut.check(71), LevelState::OVER);
    assert_eq!(dut.get_state(), LevelState::OVER);

    assert_eq!(dut.check(70), LevelState::UNDER);
    assert_eq!(dut.get_state(), LevelState::UNDER);

    assert_eq!(dut.check(100), LevelState::UNDER);
    assert_eq!(dut.get_state(), LevelState::UNDER);

    assert_eq!(dut.check(101), LevelState::OVER);
    assert_eq!(dut.get_state(), LevelState::OVER);
}

#[test]
fn test_observer_pattern() {
    let mut dut = LevelHyst::new(70, 100, LevelState::OVER);
    let mut inner = SensorGroupInner { max: 5, min: 5 };

    {
        let fp: &mut dyn Observer<i32, SensorGroupInner<i32>> = &mut dut;
        fp.dispatch(&inner, 5);
    }
    assert_eq!(dut.get_state(), LevelState::UNDER);

    inner.max = 101;
    {
        let fp: &mut dyn Observer<i32, SensorGroupInner<i32>> = &mut dut;
        fp.dispatch(&inner, 5);
    }
    assert_eq!(dut.get_state(), LevelState::OVER);
}

#[test]
fn boundary_is_under_for_every_width() {
    assert_eq!(check(0u8, 0u8), LevelState::UNDER);
    assert_eq!(check(255u8, 255u8), LevelState::UNDER);
    assert_eq!(check(7u16, 7u16), LevelState::UNDER);
    assert_eq!(check(65535u16, 65535u16), LevelState::UNDER);
    assert_eq!(check(9u32, 9u32), LevelState::UNDER);
    assert_eq!(check(-128i8, -128i8), LevelState::UNDER);
    assert_eq!(check(-5i16, -5i16), LevelState::UNDER);
    assert_eq!(check(2147483647i32, 2147483647i32), LevelState::UNDER);
}

#[test]
fn larger_value_stays_over() {
    assert_eq!(check(31, 30), LevelState::OVER);
    assert_eq!(check(32, 30), LevelState::OVER);
    assert_eq!(check(2147483647i32, 30), LevelState::OVER);
    assert_eq!(check(-3i8, -4i8), LevelState::OVER);
}

#[test]
fn constructor_argument_order_is_irrelevant() {
    let mut forward = LevelHyst::new(100, 70, LevelState::UNDER);
    let mut swapped = LevelHyst::new(70, 100, LevelState::UNDER);

    for v in [70i32, 71, 100, 101, 100, 70, 101, 71] {
        assert_eq!(forward.check(v), swapped.check(v));
        assert_eq!(forward.get_state(), swapped.get_state());
    }
}

#[test]
fn no_chatter_inside_dead_band() {
    let mut dut = LevelHyst::new(100, 70, LevelState::OVER);
    for v in [71i32, 100, 85, 101, 99, 71] {
        assert_eq!(dut.check(v), LevelState::OVER);
    }

    let mut dut = LevelHyst::new(100, 70, LevelState::UNDER);
    for v in [100i32, 70, 85, 0, 99, 71] {
        assert_eq!(dut.check(v), LevelState::UNDER);
    }
}

#[test]
fn set_state_overrides_unconditionally() {
    let mut dut = LevelHyst::new(100, 70, LevelState::UNDER);
    dut.set_state(LevelState::OVER);
    assert_eq!(dut.get_state(), LevelState::OVER);
    dut.set_state(LevelState::UNDER);
    assert_eq!(dut.get_state(), LevelState::UNDER);
    assert_eq!(dut.check(101), LevelState::OVER);
}

#[test]
fn sensor_group_accessors() {
    let inner = SensorGroupInner { min: 3u8, max: 9u8 };
    assert_eq!(inner.get_min(), 3u8);
    assert_eq!(inner.get_max(), 9u8);
}

#[test]
fn dispatch_single_reading() {
    let mut dut = LevelHyst::new(70, 100, LevelState::OVER);
    let mut inner = SensorInner { val: 5 };

    {
        let fp: &mut dyn Observer<i32, SensorInner<i32>> = &mut dut;
        fp.dispatch(&inner, 99);
    }
    assert_eq!(dut.get_state(), LevelState::UNDER);

    inner.val = 101;
    {
        let fp: &mut dyn Observer<i32, SensorInner<i32>> = &mut dut;
        fp.dispatch(&inner, 0);
    }
    assert_eq!(dut.get_state(), LevelState::OVER);
}

#[test]
fn monitor_over_unsigned_width() {
    let mut dut = LevelHyst::new(200u8, 150u8, LevelState::UNDER);
    assert_eq!(dut.check(200u8), LevelState::UNDER);
    assert_eq!(dut.check(201u8), LevelState::OVER);
    assert_eq!(dut.check(151u8), LevelState::OVER);
    assert_eq!(dut.check(150u8), LevelState::UNDER);
}

#[test]
fn monitor_over_signed_width() {
    let mut dut = LevelHyst::new(-10i16, -40i16, LevelState::UNDER);
    assert_eq!(dut.check(-10i16), LevelState::UNDER);
    assert_eq!(dut.check(-9i16), LevelState::OVER);
    assert_eq!(dut.check(-39i16), LevelState::OVER);
    assert_eq!(dut.check(-40i16), LevelState::UNDER);
}
