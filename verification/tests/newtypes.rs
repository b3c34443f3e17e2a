use deriving_via::example::{A, B, C, D, Test};
use deriving_via::gnd;
use deriving_via::id::{Id, ItemId, UserId, ValidationError};

#[test]
fn display_reaches_the_innermost_value() {
    let b = gnd::B(gnd::A(42));
    assert_eq!(b.to_string(), "42");
}

#[test]
fn deref_mut_writes_through() {
    let mut b = gnd::B(gnd::A(1));
    *b.deref_mut().deref_mut() = 7;
    assert_eq!(*b.deref().deref(), 7);
}

#[test]
fn addition_through_i32() {
    let c = C(B(A(42))).add(C(B(A(42))));
    assert_eq!(c, C(B(A(84))));
    assert_eq!(c.to_string(), "84");
}

#[test]
fn other_arithmetic_through_i32() {
    assert_eq!(C(B(A(5))).sub(C(B(A(8)))), C(B(A(-3))));
    assert_eq!(C(B(A(6))).mul(C(B(A(-7)))), C(B(A(-42))));
    assert_eq!(C(B(A(-7))).div(C(B(A(2)))), C(B(A(-3))));
    assert_eq!(C(B(A(7))).div(C(B(A(-2)))), C(B(A(-3))));
    assert_eq!(C(B(A(-7))).div(C(B(A(-2)))), C(B(A(3))));
}

#[test]
fn transitive_from_i32() {
    assert_eq!(C::from(42), C(B(A(42))));
    assert_eq!(C::from(B(A(1))), C(B(A(1))));
    assert_eq!(B::from(A(2)), B(A(2)));
    assert_eq!(A::from(3), A(3));
}

#[test]
fn display_of_a_generic_newtype() {
    let d = D("foo".to_owned());
    assert_eq!(d.to_string(), "foo");
    assert_eq!(D::from(5u8).to_string(), "5");
}

#[test]
fn display_of_the_underlying_field() {
    let test = Test::<i32>(42, Default::default());
    assert_eq!(test.to_string(), "42");
    assert_eq!(*test.deref(), 42);
}

#[test]
fn user_id_accepts_its_prefix() {
    let id = UserId::from_str("user-mitama").unwrap();
    assert_eq!(id.to_string(), "user-mitama");
}

#[test]
fn item_id_refuses_another_prefix() {
    let r = ItemId::from_str("user-mitama");
    assert_eq!(r.unwrap_err(), ValidationError);
    assert_eq!(ValidationError.message(), "validation error");
    assert_eq!(ItemId::from_str("item-1").unwrap().to_string(), "item-1");
    assert!(UserId::from_str("item-1").is_err());
}

#[test]
fn id_takes_any_text() {
    assert_eq!(Id::from_str("").0, "");
    assert_eq!(*Id::from_str("x").deref(), "x");
}
