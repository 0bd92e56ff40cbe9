use max170xx::{
    Error, Max17043, Max17044, Max17048, Max17049, Max17058, Max17059, RecordedCall, ScriptItem,
    ScriptedTransport,
};

const ADDR: u8 = 0x36;

fn write_call(bytes: Vec<u8>) -> RecordedCall {
    RecordedCall::Write { addr: ADDR, bytes }
}

fn read_call(reg: u8) -> RecordedCall {
    RecordedCall::Read { addr: ADDR, reg }
}

#[test]
fn soc_43_integer_plus_fraction() {
    let t = ScriptedTransport::new(vec![ScriptItem::Reply(0x1A, 0x80)]);
    let mut sensor = Max17043::new(t);
    let soc = sensor.soc().unwrap();
    assert_eq!(soc, 0x1A80);
    assert_eq!(soc as f32 / 256.0, 26.5);
    let t = sensor.destroy();
    assert_eq!(t.calls, vec![read_call(0x04)]);
}

#[test]
fn soc_44_integer_plus_fraction() {
    let t = ScriptedTransport::new(vec![ScriptItem::Reply(0x1A, 0x80)]);
    let mut sensor = Max17044::new(t);
    let soc = sensor.soc().unwrap();
    assert_eq!(soc as f32 / 256.0, 26.5);
}

#[test]
fn soc_48_direct_fraction() {
    let t = ScriptedTransport::new(vec![ScriptItem::Reply(0x19, 0x00)]);
    let mut sensor = Max17048::new(t);
    let soc = sensor.soc().unwrap();
    assert_eq!(soc, 6400);
    assert_eq!(soc as f32 / 256.0, 25.0);
    let t = sensor.destroy();
    assert_eq!(t.calls, vec![read_call(0x04)]);
}

#[test]
fn soc_59_direct_fraction() {
    let t = ScriptedTransport::new(vec![ScriptItem::Reply(0x19, 0x80)]);
    let mut sensor = Max17059::new(t);
    let soc = sensor.soc().unwrap();
    assert_eq!(soc as f32 / 256.0, 25.5);
}

#[test]
fn voltage_43_scale() {
    let t = ScriptedTransport::new(vec![ScriptItem::Reply(0x10, 0x00)]);
    let mut sensor = Max17043::new(t);
    let nv = sensor.voltage().unwrap();
    // (0x1000 >> 4) / 800.0 V = 256 / 800.0 V = 0.32 V
    assert_eq!(nv, 320_000_000);
    assert_eq!(nv as f64 / 1e9, 0.32);
    let t = sensor.destroy();
    assert_eq!(t.calls, vec![read_call(0x02)]);
}

#[test]
fn voltage_44_scale() {
    let t = ScriptedTransport::new(vec![ScriptItem::Reply(0x10, 0x00)]);
    let mut sensor = Max17044::new(t);
    let nv = sensor.voltage().unwrap();
    // (0x1000 >> 4) / 400.0 V = 0.64 V: double the MAX17043 step
    assert_eq!(nv, 640_000_000);
    assert_eq!(nv as f64 / 1e9, 0.64);
}

#[test]
fn voltage_48_scale() {
    let t = ScriptedTransport::new(vec![ScriptItem::Reply(0x10, 0x00)]);
    let mut sensor = Max17048::new(t);
    let nv = sensor.voltage().unwrap();
    // 0x1000 * 5.0 / 64000.0 V = 0.32 V
    assert_eq!(nv, 320_000_000);
    assert_eq!(nv as f64 / 1e9, 4096.0 * 5.0 / 64000.0);
}

#[test]
fn voltage_49_scale() {
    let t = ScriptedTransport::new(vec![ScriptItem::Reply(0x10, 0x00)]);
    let mut sensor = Max17049::new(t);
    let nv = sensor.voltage().unwrap();
    // 0x1000 * 5.0 / 32000.0 V = 0.64 V
    assert_eq!(nv, 640_000_000);
    assert_eq!(nv as f64 / 1e9, 4096.0 * 5.0 / 32000.0);
}

#[test]
fn voltage_58_scale() {
    let t = ScriptedTransport::new(vec![ScriptItem::Reply(0xFF, 0xFF)]);
    let mut sensor = Max17058::new(t);
    let nv = sensor.voltage().unwrap();
    assert_eq!(nv, 65535 * 78_125);
    assert_eq!(nv as f64 / 1e9, 65535.0 * 5.0 / 64000.0);
}

#[test]
fn voltage_59_scale() {
    let t = ScriptedTransport::new(vec![ScriptItem::Reply(0x00, 0x01)]);
    let mut sensor = Max17059::new(t);
    let nv = sensor.voltage().unwrap();
    assert_eq!(nv, 156_250);
    assert_eq!(nv as f64 / 1e9, 5.0 / 32000.0);
}

#[test]
fn charge_rate_is_signed() {
    // raw 0xFFFF is -1 as two's complement: -0.208 %/h
    let t = ScriptedTransport::new(vec![ScriptItem::Reply(0xFF, 0xFF)]);
    let mut sensor = Max17048::new(t);
    let rate = sensor.charge_rate().unwrap();
    assert_eq!(rate, -208);
    assert_eq!(rate as f64 / 1000.0, -0.208);
    let t = sensor.destroy();
    assert_eq!(t.calls, vec![read_call(0x16)]);

    // raw 0x0001 is +1: +0.208 %/h
    let t = ScriptedTransport::new(vec![ScriptItem::Reply(0x00, 0x01)]);
    let mut sensor = Max17049::new(t);
    let rate = sensor.charge_rate().unwrap();
    assert_eq!(rate, 208);
    assert_eq!(rate as f64 / 1000.0, 0.208);
}

#[test]
fn set_table_issues_five_exact_transactions() {
    let t = ScriptedTransport::new(vec![
        ScriptItem::Ack,
        ScriptItem::Ack,
        ScriptItem::Ack,
        ScriptItem::Ack,
        ScriptItem::Ack,
    ]);
    let mut sensor = Max17048::new(t);
    let mut table = [0u16; 64];
    let mut i = 0usize;
    while i < 64 {
        table[i] = (i as u16) * 256 + (255 - i as u16);
        i += 1;
    }
    sensor.set_table(&table).unwrap();
    let t = sensor.destroy();

    let mut burst = vec![0x40u8];
    for i in 0..64u16 {
        burst.push(i as u8);
        burst.push(255 - i as u8);
    }
    assert_eq!(burst.len(), 129);
    assert_eq!(
        t.calls,
        vec![
            write_call(vec![0x3F, 0x57]),
            write_call(vec![0x3E, 0x4A]),
            write_call(burst),
            write_call(vec![0x3F, 0x00]),
            write_call(vec![0x3E, 0x00]),
        ]
    );
}

#[test]
fn set_table_stops_at_first_failure() {
    // failure on the burst write: both unlock writes made, no lock writes
    let t = ScriptedTransport::new(vec![ScriptItem::Ack, ScriptItem::Ack, ScriptItem::Nack(9)]);
    let mut sensor = Max17058::new(t);
    let table = [0u16; 64];
    match sensor.set_table(&table) {
        Err(Error::I2C(e)) => assert_eq!(e, 9),
        _ => panic!("expected a bus error"),
    }
    let t = sensor.destroy();
    assert_eq!(t.calls.len(), 3);
    assert_eq!(t.calls[0], write_call(vec![0x3F, 0x57]));
    assert_eq!(t.calls[1], write_call(vec![0x3E, 0x4A]));

    // failure on the very first unlock write: nothing further is issued
    let t = ScriptedTransport::new(vec![ScriptItem::Nack(5)]);
    let mut sensor = Max17049::new(t);
    match sensor.set_table(&table) {
        Err(Error::I2C(e)) => assert_eq!(e, 5),
        _ => panic!("expected a bus error"),
    }
    let t = sensor.destroy();
    assert_eq!(t.calls, vec![write_call(vec![0x3F, 0x57])]);
}

#[test]
fn read_failure_surfaces_wrapped_error() {
    let t = ScriptedTransport::new(vec![ScriptItem::Nack(7)]);
    let mut sensor = Max17043::new(t);
    match sensor.soc() {
        Err(Error::I2C(e)) => assert_eq!(e, 7),
        _ => panic!("expected a bus error"),
    }
    let t = sensor.destroy();
    assert_eq!(t.calls.len(), 1);
}

#[test]
fn write_failure_surfaces_wrapped_error() {
    let t = ScriptedTransport::new(vec![ScriptItem::Nack(42)]);
    let mut sensor = Max17059::new(t);
    match sensor.quickstart() {
        Err(Error::I2C(e)) => assert_eq!(e, 42),
        _ => panic!("expected a bus error"),
    }
    let t = sensor.destroy();
    assert_eq!(t.calls, vec![write_call(vec![0x06, 0x40, 0x00])]);
}

#[test]
fn version_identical_across_variants() {
    let script = || vec![ScriptItem::Reply(0x00, 0x12)];
    let expected_calls = vec![read_call(0x08)];

    let mut s = Max17043::new(ScriptedTransport::new(script()));
    assert_eq!(s.version().unwrap(), 0x0012);
    assert_eq!(s.destroy().calls, expected_calls);

    let mut s = Max17044::new(ScriptedTransport::new(script()));
    assert_eq!(s.version().unwrap(), 0x0012);
    assert_eq!(s.destroy().calls, expected_calls);

    let mut s = Max17048::new(ScriptedTransport::new(script()));
    assert_eq!(s.version().unwrap(), 0x0012);
    assert_eq!(s.destroy().calls, expected_calls);

    let mut s = Max17049::new(ScriptedTransport::new(script()));
    assert_eq!(s.version().unwrap(), 0x0012);
    assert_eq!(s.destroy().calls, expected_calls);

    let mut s = Max17058::new(ScriptedTransport::new(script()));
    assert_eq!(s.version().unwrap(), 0x0012);
    assert_eq!(s.destroy().calls, expected_calls);

    let mut s = Max17059::new(ScriptedTransport::new(script()));
    assert_eq!(s.version().unwrap(), 0x0012);
    assert_eq!(s.destroy().calls, expected_calls);
}

#[test]
fn quickstart_identical_across_variants() {
    let expected = vec![write_call(vec![0x06, 0x40, 0x00])];

    let mut s = Max17043::new(ScriptedTransport::new(vec![ScriptItem::Ack]));
    s.quickstart().unwrap();
    assert_eq!(s.destroy().calls, expected);

    let mut s = Max17044::new(ScriptedTransport::new(vec![ScriptItem::Ack]));
    s.quickstart().unwrap();
    assert_eq!(s.destroy().calls, expected);

    let mut s = Max17048::new(ScriptedTransport::new(vec![ScriptItem::Ack]));
    s.quickstart().unwrap();
    assert_eq!(s.destroy().calls, expected);

    let mut s = Max17049::new(ScriptedTransport::new(vec![ScriptItem::Ack]));
    s.quickstart().unwrap();
    assert_eq!(s.destroy().calls, expected);

    let mut s = Max17058::new(ScriptedTransport::new(vec![ScriptItem::Ack]));
    s.quickstart().unwrap();
    assert_eq!(s.destroy().calls, expected);

    let mut s = Max17059::new(ScriptedTransport::new(vec![ScriptItem::Ack]));
    s.quickstart().unwrap();
    assert_eq!(s.destroy().calls, expected);
}

#[test]
fn reset_commands_differ_by_sub_family() {
    let mut s = Max17043::new(ScriptedTransport::new(vec![ScriptItem::Ack]));
    s.reset().unwrap();
    assert_eq!(s.destroy().calls, vec![write_call(vec![0xFE, 0x00, 0x54])]);

    let mut s = Max17044::new(ScriptedTransport::new(vec![ScriptItem::Ack]));
    s.reset().unwrap();
    assert_eq!(s.destroy().calls, vec![write_call(vec![0xFE, 0x00, 0x54])]);

    let mut s = Max17048::new(ScriptedTransport::new(vec![ScriptItem::Ack]));
    s.reset().unwrap();
    assert_eq!(s.destroy().calls, vec![write_call(vec![0xFE, 0x54, 0x00])]);

    let mut s = Max17059::new(ScriptedTransport::new(vec![ScriptItem::Ack]));
    s.reset().unwrap();
    assert_eq!(s.destroy().calls, vec![write_call(vec![0xFE, 0x54, 0x00])]);
}

#[test]
fn destroy_returns_transport_unchanged() {
    let t = ScriptedTransport::new(vec![ScriptItem::Reply(0x12, 0x34)]);
    let sensor = Max17043::new(t);
    let t = sensor.destroy();
    // no transaction was issued, and the untouched script still answers
    assert!(t.calls.is_empty());
    let mut sensor = Max17048::new(t);
    assert_eq!(sensor.version().unwrap(), 0x1234);
}
