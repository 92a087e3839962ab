use triplet::{Count, Score, UserId};

type Meters = triplet::Meters<f32>;
type Kilometers = triplet::Kilometers<f32>;
type Seconds = triplet::Seconds<f64>;

#[test]
fn test_basic_operations() {
    let a = Meters::new(10.0);
    let b = Meters::new(5.0);

    assert_eq!(a + b, Meters::new(15.0));
    assert_eq!(a - b, Meters::new(5.0));
    assert_eq!(a * b, Meters::new(50.0));
    assert_eq!(a / b, Meters::new(2.0));

    let mut c = a;
    c += b;
    assert_eq!(c, Meters::new(15.0));

    assert!(a > b);
    assert!(b < a);
    assert_eq!(a, Meters::new(10.0));
}

#[test]
fn test_conversions() {
    let meters = Meters::new(100.0);
    let value: f32 = meters.value();
    assert_eq!(value, 100.0);

    let meters2: Meters = 200.0.into();
    assert_eq!(meters2, Meters::new(200.0));
}

#[test]
fn test_integer_types() {
    let score1 = Score::new(10);
    let score2 = Score::new(-5);

    assert_eq!(score1 + score2, Score::new(5));
    assert_eq!(score2.abs(), Score::new(5));
    assert_eq!(-score1, Score::new(-10));

    let id1 = UserId::new(1);
    let id2 = UserId::new(2);

    assert!(id2 > id1);
    assert_eq!(id1 + id2, UserId::new(3));
    assert!(id2.is_even());
    assert!(id1.is_odd());
    assert_eq!(id2.next(), UserId::new(3));
    assert_eq!(id2.prev(), UserId::new(1));

    let zero = UserId::new(0);
    assert_eq!(zero.checked_prev(), None);
    assert_eq!(id1.checked_prev(), Some(UserId::new(0)));

    let mut count = Count::new(0);
    count += Count::new(1);
    assert_eq!(count, Count::new(1));
}

#[test]
fn test_display_and_debug() {
    let meters = Meters::new(42.5);
    assert_eq!(meters.to_string(), "42.5");
    assert_eq!(format!("{:?}", meters), "Meters(42.5)");
}

#[test]
fn test_type_safety() {
    let meters = Meters::new(100.0);
    let kilometers = Kilometers::new(1.0);
    let user_id = UserId::new(42);
    let score = Score::new(-10);

    let meters_from_km = Meters::new(kilometers.value() * 1000.0);
    let total = meters + meters_from_km;
    assert_eq!(total, Meters::new(1100.0));

    assert_eq!(score.abs(), Score::new(10));
    assert_eq!(-score, Score::new(10));

    assert!(user_id.is_even());
    assert_eq!(user_id.next(), UserId::new(43));
}

#[test]
fn signed_division_rounds_towards_zero() {
    assert_eq!(Score::new(7) / Score::new(2), Score::new(3));
    assert_eq!(Score::new(-7) / Score::new(2), Score::new(-3));
    assert_eq!(Score::new(7) / Score::new(-2), Score::new(-3));
    assert_eq!(Score::new(-7) / Score::new(-2), Score::new(3));
    assert_eq!(Score::new(7) % Score::new(2), Score::new(1));
    assert_eq!(Score::new(-7) % Score::new(2), Score::new(-1));
    assert_eq!(Score::new(7) % Score::new(-2), Score::new(1));
    assert_eq!(Score::new(-7) % Score::new(-2), Score::new(-1));
    assert_eq!(Score::new(i32::MIN) / Score::new(1), Score::new(i32::MIN));
    assert_eq!(Score::new(i32::MIN) / Score::new(2), Score::new(-1073741824));
    assert_eq!(Score::new(i32::MIN) / Score::new(-2), Score::new(1073741824));
}

#[test]
fn signed_arithmetic_has_exact_values() {
    assert_eq!(Count::new(6) - Count::new(10), Count::new(-4));
    assert_eq!(Count::new(-6) * Count::new(7), Count::new(-42));
    assert_eq!(-Count::new(i32::MAX), Count::new(i32::MIN + 1));
    assert_eq!(Count::new(i32::MIN + 1).abs(), Count::new(i32::MAX));
    assert_eq!(Count::new(0).abs(), Count::new(0));
    let mut c = Count::new(20);
    c -= Count::new(5);
    assert_eq!(c, Count::new(15));
    c *= Count::new(-3);
    assert_eq!(c, Count::new(-45));
    c /= Count::new(6);
    assert_eq!(c, Count::new(-7));
    c %= Count::new(4);
    assert_eq!(c, Count::new(-3));
    c += Count::new(3);
    assert_eq!(c, Count::default());
}

#[test]
fn unsigned_arithmetic_has_exact_values() {
    assert_eq!(UserId::new(10) - UserId::new(4), UserId::new(6));
    assert_eq!(UserId::new(10) * UserId::new(4), UserId::new(40));
    assert_eq!(UserId::new(10) / UserId::new(4), UserId::new(2));
    assert_eq!(UserId::new(10) % UserId::new(4), UserId::new(2));
    assert_eq!(UserId::new(u32::MAX).prev(), UserId::new(u32::MAX - 1));
    assert_eq!(UserId::new(u32::MAX - 1).next(), UserId::new(u32::MAX));
    assert!(UserId::new(u32::MAX).is_odd());
    assert!(!UserId::new(u32::MAX).is_even());
    let mut id = UserId::new(9);
    id += UserId::new(1);
    id *= UserId::new(5);
    id -= UserId::new(8);
    id /= UserId::new(4);
    assert_eq!(id, UserId::new(10));
    id %= UserId::new(7);
    assert_eq!(id, UserId::new(3));
    assert_eq!(UserId::default(), UserId::new(0));
}

#[test]
fn integers_convert_by_name_only() {
    let score: Score = 42.into();
    assert_eq!(score, Score::new(42));
    let raw: i32 = score.into();
    assert_eq!(raw, 42);
    let id = UserId::from(7);
    assert_eq!(u32::from(id), 7);
    assert_eq!(id.value(), 7);
    assert_eq!(*id.as_ref(), 7);
    let as_score = Score::new(id.value() as i32);
    assert_eq!(as_score, Score::new(7));
    let mut count = Count::new(1);
    *count.as_mut() = 100;
    assert_eq!(count, Count::new(100));
    let inner: &mut i32 = AsMut::as_mut(&mut count);
    *inner += 1;
    assert_eq!(count.value(), 101);
    let shared: &i32 = AsRef::as_ref(&count);
    assert_eq!(*shared, 101);
}

#[test]
fn integers_render_in_decimal() {
    assert_eq!(Score::new(0).to_string(), "0");
    assert_eq!(Score::new(42).to_string(), "42");
    assert_eq!(Score::new(-10).to_string(), "-10");
    assert_eq!(Score::new(i32::MIN).to_string(), "-2147483648");
    assert_eq!(Count::new(i32::MAX).to_string(), "2147483647");
    assert_eq!(UserId::new(1001).to_string(), "1001");
    assert_eq!(UserId::new(u32::MAX).to_string(), "4294967295");
    assert_eq!(format!("{:?}", Score::new(-10)), "Score(-10)");
    assert_eq!(format!("{:?}", UserId::new(7)), "UserId(7)");
}

#[test]
fn units_work_over_any_number_type() {
    let a = triplet::Meters::new(7i64);
    let b = triplet::Meters::new(2i64);
    assert_eq!(a + b, triplet::Meters::new(9));
    assert_eq!(a - b, triplet::Meters::new(5));
    assert_eq!(a * b, triplet::Meters::new(14));
    assert_eq!(a / b, triplet::Meters::new(3));
    assert_eq!(a % b, triplet::Meters::new(1));
    assert_eq!(-a, triplet::Meters::new(-7));
    let mut t = Seconds::new(300.0);
    t -= Seconds::new(50.0);
    t *= Seconds::new(2.0);
    t /= Seconds::new(4.0);
    assert_eq!(t, Seconds::new(125.0));
    t %= Seconds::new(100.0);
    assert_eq!(t, Seconds::new(25.0));
    assert_eq!(-t, Seconds::new(-25.0));
    assert_eq!(Seconds::default(), Seconds::new(0.0));
    let km: Kilometers = 2.5.into();
    assert_eq!(km.value(), 2.5);
    assert_eq!(*km.as_ref(), 2.5);
    let mut m = Meters::new(1.0);
    *m.as_mut() = 10.0;
    assert_eq!(m, Meters::new(10.0));
    assert_eq!(Kilometers::new(2.5).to_string(), "2.5");
    assert_eq!(triplet::Seconds::new(-3i64).to_string(), "-3");
    assert!(Kilometers::new(1.0) < Kilometers::new(1.5));
}
