use aa_standalone::messages::{float_bits_to_i32, Value};
use aa_standalone::text::{i32_to_string, u32_to_string};

fn float(f: f32) -> Value {
    Value::VFloat(f.to_bits())
}

fn show(v: &Value) -> String {
    let text = match v {
        Value::VFloat(bits) => f32::from_bits(*bits).to_string(),
        _ => String::new(),
    };
    v.to_string(&text)
}

#[test]
fn integer_displays_as_decimal() {
    assert_eq!(show(&Value::VInt(0)), "0");
    assert_eq!(show(&Value::VInt(7)), "7");
    assert_eq!(show(&Value::VInt(-42)), "-42");
    assert_eq!(show(&Value::VInt(1_000_000)), "1000000");
    assert_eq!(show(&Value::VInt(i32::MAX)), "2147483647");
    assert_eq!(show(&Value::VInt(i32::MIN)), "-2147483648");
}

#[test]
fn integer_text_agrees_with_std() {
    let samples = [0, 1, -1, 9, 10, 11, 99, 100, 101, -9, -10, -100, 12345, -98765, i32::MAX, i32::MIN];
    for i in samples {
        assert_eq!(i32_to_string(i), i.to_string());
    }
    for n in [0u32, 5, 10, 255, 256, 65535, 4294967295] {
        assert_eq!(u32_to_string(n), n.to_string());
    }
}

#[test]
fn string_displays_as_itself() {
    assert_eq!(show(&Value::VString("hello world".to_string())), "hello world");
    assert_eq!(show(&Value::VString(String::new())), "");
}

#[test]
fn pair_displays_in_brackets() {
    assert_eq!(show(&Value::VPair((1, 2))), "[1,2]");
    assert_eq!(show(&Value::VPair((0, 255))), "[0,255]");
}

#[test]
fn bytes_display_in_brackets_with_commas() {
    assert_eq!(show(&Value::VVU8(vec![])), "[]");
    assert_eq!(show(&Value::VVU8(vec![7])), "[7]");
    assert_eq!(show(&Value::VVU8(vec![1, 2, 3])), "[1,2,3]");
    assert_eq!(show(&Value::VVU8(vec![0, 128, 255, 10])), "[0,128,255,10]");
}

#[test]
fn float_displays_as_the_text_it_was_rendered_with() {
    assert_eq!(show(&float(3.9)), "3.9");
    assert_eq!(show(&float(-0.5)), "-0.5");
    assert_eq!(float(3.9).to_string("anything"), "anything");
    assert_eq!(Value::VInt(3).to_string("ignored"), "3");
}

#[test]
fn integer_converts_to_itself() {
    assert_eq!(Value::VInt(5).to_i32(), 5);
    assert_eq!(Value::VInt(-5).to_i32(), -5);
    assert_eq!(Value::VInt(i32::MIN).to_i32(), i32::MIN);
    assert_eq!(i32::from(Value::VInt(17)), 17);
}

#[test]
fn non_numeric_converts_to_zero() {
    assert_eq!(Value::VString("12".to_string()).to_i32(), 0);
    assert_eq!(Value::VPair((3, 4)).to_i32(), 0);
    assert_eq!(Value::VVU8(vec![9, 9]).to_i32(), 0);
    assert_eq!(i32::from(Value::VString("7".to_string())), 0);
}

#[test]
fn float_truncates_toward_zero() {
    assert_eq!(float(3.9).to_i32(), 3);
    assert_eq!(float(-3.9).to_i32(), -3);
    assert_eq!(float(0.0).to_i32(), 0);
    assert_eq!(float(-0.0).to_i32(), 0);
    assert_eq!(float(0.999_999_9).to_i32(), 0);
    assert_eq!(float(1.0).to_i32(), 1);
    assert_eq!(float(-1.0).to_i32(), -1);
    assert_eq!(float(127.5).to_i32(), 127);
    assert_eq!(float(16_777_216.0).to_i32(), 16_777_216);
    assert_eq!(float(16_777_218.0).to_i32(), 16_777_218);
    assert_eq!(i32::from(float(3.9)), 3);
}

#[test]
fn float_out_of_range_saturates() {
    assert_eq!(float(1e10).to_i32(), i32::MAX);
    assert_eq!(float(-1e10).to_i32(), i32::MIN);
    assert_eq!(float(2_147_483_648.0).to_i32(), i32::MAX);
    assert_eq!(float(-2_147_483_648.0).to_i32(), i32::MIN);
    assert_eq!(float(2_147_483_520.0).to_i32(), 2_147_483_520);
    assert_eq!(float(f32::INFINITY).to_i32(), i32::MAX);
    assert_eq!(float(f32::NEG_INFINITY).to_i32(), i32::MIN);
    assert_eq!(float(f32::MAX).to_i32(), i32::MAX);
    assert_eq!(float(f32::MIN).to_i32(), i32::MIN);
}

#[test]
fn float_nan_and_tiny_are_zero() {
    assert_eq!(float(f32::NAN).to_i32(), 0);
    assert_eq!(float_bits_to_i32(0x7FC0_0001), 0);
    assert_eq!(float_bits_to_i32(0xFFC0_0000), 0);
    assert_eq!(float(f32::MIN_POSITIVE).to_i32(), 0);
    assert_eq!(float_bits_to_i32(1), 0);
    assert_eq!(float_bits_to_i32(0x8000_0001), 0);
}

#[test]
fn float_conversion_agrees_with_the_machine_cast() {
    let mut bits: u32 = 0;
    let mut checked = 0u32;
    loop {
        let f = f32::from_bits(bits);
        assert_eq!(float_bits_to_i32(bits), f as i32, "bits {:#x}", bits);
        checked += 1;
        match bits.checked_add(7919) {
            Some(next) => bits = next,
            None => break,
        }
    }
    assert!(checked > 500_000);
    for e in 0u32..=255 {
        for m in [0u32, 1, 0x40_0000, 0x7F_FFFF] {
            for s in [0u32, 1] {
                let b = (s << 31) | (e << 23) | m;
                assert_eq!(float_bits_to_i32(b), f32::from_bits(b) as i32, "bits {:#x}", b);
            }
        }
    }
}

fn integer_part(text: &str) -> i32 {
    let whole = text.split('.').next().unwrap();
    whole.parse::<i32>().unwrap()
}

#[test]
fn round_trip_through_display_string() {
    for i in [0, 1, -1, 42, -42, 65536, i32::MAX, i32::MIN] {
        let v = Value::VInt(i);
        assert_eq!(integer_part(&show(&v)), i);
        assert_eq!(v.to_i32(), i);
    }
    let v = float(3.9);
    assert_eq!(show(&v), "3.9");
    assert_eq!(integer_part(&show(&v)), 3);
    assert_eq!(v.to_i32(), 3);
    for f in [0.25f32, 1.5, -2.75, 100.0, -7.0, 12345.678, 8_388_607.5] {
        let v = float(f);
        assert_eq!(integer_part(&show(&v)), v.to_i32(), "float {}", f);
    }
}

#[test]
fn clone_keeps_the_payload() {
    let values = vec![
        Value::VInt(3),
        float(1.5),
        Value::VString("x y".to_string()),
        Value::VPair((1, 2)),
        Value::VVU8(vec![1, 2, 3]),
    ];
    for v in values.iter() {
        assert_eq!(&v.clone(), v);
    }
}
