use remy::flags::Flags;

#[test]
pub fn intersects_returns_true_if_all_of_provided_flags_are_set() {
    let f = Flags::CARRY().union(Flags::SIGN()).union(Flags::ZERO());
    assert!(f.intersects(Flags::CARRY().union(Flags::SIGN())));
}

#[test]
pub fn intersects_returns_false_if_any_of_provided_flags_are_clear() {
    let f = Flags::CARRY();
    assert!(!f.intersects(Flags::CARRY().union(Flags::SIGN())));
}

#[test]
pub fn clear_leaves_flag_clear_if_it_is_already_clear() {
    let mut f = Flags::CARRY();
    f.clear(Flags::SIGN());
    assert!(!f.intersects(Flags::SIGN()));
}

#[test]
pub fn clear_clears_flag_if_it_is_set() {
    let mut f = Flags::CARRY().union(Flags::SIGN());
    f.clear(Flags::SIGN());
    assert!(!f.intersects(Flags::SIGN()));
}

#[test]
pub fn set_leaves_flag_set_if_it_is_already_set() {
    let mut f = Flags::CARRY().union(Flags::SIGN());
    f.set(Flags::SIGN());
    assert!(f.intersects(Flags::SIGN()));
}

#[test]
pub fn set_sets_flag_if_it_is_clear() {
    let mut f = Flags::CARRY();
    f.set(Flags::SIGN());
    assert!(f.intersects(Flags::SIGN()));
}

#[test]
pub fn replace_sets_flags_to_provided_value_plus_reserved_flag() {
    let mut f = Flags::CARRY().union(Flags::SIGN());
    f.replace(Flags::INTERRUPT().union(Flags::ZERO()));
    assert_eq!(Flags::INTERRUPT().union(Flags::ZERO()).union(Flags::RESERVED()), f);
}

#[test]
pub fn carry_returns_true_if_carry_bit_set() {
    let f = Flags::CARRY();
    assert!(f.carry());
}

#[test]
pub fn carry_returns_false_if_carry_bit_not_set() {
    let f = Flags::SIGN();
    assert!(!f.carry());
}

#[test]
pub fn set_sign_and_zero_sets_zero_flag_if_value_is_zero() {
    let mut r = Flags::NONE();
    r.set_sign_and_zero(0);
    assert_eq!(r, Flags::ZERO().union(Flags::RESERVED()));
}

#[test]
pub fn set_sign_and_zero_unsets_zero_flag_if_value_is_nonzero() {
    let mut r = Flags::ZERO();
    r.set_sign_and_zero(42);
    assert_eq!(r, Flags::RESERVED());
}

#[test]
pub fn set_sign_and_zero_sets_sign_flag_if_value_is_negative() {
    let mut r = Flags::NONE();
    r.set_sign_and_zero(0xFF);
    assert_eq!(r, Flags::SIGN().union(Flags::RESERVED()));
}

#[test]
pub fn set_sign_and_zero_unsets_sign_flag_if_value_is_non_negative() {
    let mut r = Flags::SIGN();
    r.set_sign_and_zero(0x7F);
    assert_eq!(r, Flags::RESERVED());
}

#[test]
pub fn set_if_sets_flag_if_condition_true() {
    let mut r = Flags::NONE();
    r.clear(Flags::SIGN());
    r.set_if(Flags::SIGN(), true);
    assert!(r.intersects(Flags::SIGN()));
}

#[test]
pub fn set_if_clears_flag_if_condition_false() {
    let mut r = Flags::NONE();
    r.set(Flags::SIGN());
    r.set_if(Flags::SIGN(), false);
    assert!(!r.intersects(Flags::SIGN()));
}

#[test]
pub fn every_setter_leaves_reserved_bit_set() {
    let mut f = Flags::NONE();
    f.set(Flags::CARRY());
    assert!(f.intersects(Flags::RESERVED()));
    f.clear(Flags::CARRY());
    assert!(f.intersects(Flags::RESERVED()));
    f.set_if(Flags::SIGN(), false);
    assert!(f.intersects(Flags::RESERVED()));
    f.set_sign_and_zero(17);
    assert!(f.intersects(Flags::RESERVED()));
    f.replace(Flags::NONE());
    assert!(f.intersects(Flags::RESERVED()));
}

#[test]
pub fn flags_render_as_one_letter_per_bit() {
    assert_eq!(Flags::NONE().to_string(), "sorbdizc");
    assert_eq!(
        Flags::SIGN().union(Flags::RESERVED()).union(Flags::CARRY()).to_string(),
        "SoRbdizC"
    );
    assert_eq!(Flags::new(0xFF).to_string(), "SORBDIZC");
}
