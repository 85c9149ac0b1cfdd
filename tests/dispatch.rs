use tap_interceptor::dispatch::{Dispatcher, SinkCall, TogglePolicy};
use tap_interceptor::keys::{KeyCode, KEY_A, KEY_C, KEY_H};
use tap_interceptor::profile::{decode, letters_profile, Binding, DispatchError, Profile, CHORD_COUNT};

fn table(f: impl Fn(usize) -> Binding) -> Vec<Binding> {
    (0..CHORD_COUNT).map(f).collect()
}

/// Digits 1..9 then 0 on codes 1..10 (key codes 2..11), a way back to
/// "Letters" on code 28, empty elsewhere.
fn numbers_profile() -> Profile {
    Profile::new(
        String::from("Numbers"),
        table(|c| match c {
            1..=10 => Binding::PressKey((c + 1) as KeyCode),
            28 => Binding::SwitchProfile(String::from("Letters")),
            _ => Binding::Empty,
        }),
    )
    .unwrap()
}

/// "Letters" with the switch chord going to "Numbers" and a toggle on code 7.
fn letters_with_switch() -> Profile {
    let base = letters_profile();
    Profile::new(
        String::from("Letters"),
        table(|c| match c {
            7 => Binding::ToggleKey(42),
            28 => Binding::SwitchProfile(String::from("Numbers")),
            31 => Binding::SwitchProfile(String::from("Symbols")),
            14 => Binding::Macro,
            _ => base.binding(c as u8).clone(),
        }),
    )
    .unwrap()
}

fn letters_only() -> Dispatcher {
    Dispatcher::new(vec![letters_profile()], TogglePolicy::ResetOnSwitch).unwrap()
}

fn two_profiles(policy: TogglePolicy) -> Dispatcher {
    Dispatcher::new(vec![letters_with_switch(), numbers_profile()], policy).unwrap()
}

#[test]
fn letters_code_one_clicks_a() {
    let mut d = letters_only();
    assert_eq!(d.handle(&[0x01]), Ok(vec![SinkCall::Click(KEY_A), SinkCall::Synchronize]));
}

#[test]
fn letters_code_zero_is_silent() {
    let mut d = letters_only();
    assert_eq!(d.handle(&[0x00]), Ok(vec![]));
}

#[test]
fn trailing_bytes_are_ignored() {
    let mut d = letters_only();
    assert_eq!(
        d.handle(&[29, 0xff, 0x10]),
        Ok(vec![SinkCall::Click(KEY_C), SinkCall::Synchronize])
    );
    assert_eq!(d.handle(&[30, 7]), Ok(vec![SinkCall::Click(KEY_H), SinkCall::Synchronize]));
}

#[test]
fn empty_payload_is_rejected() {
    let mut d = letters_only();
    assert_eq!(d.handle(&[]), Err(DispatchError::EmptyPayload));
    assert_eq!(decode(&[]), Err(DispatchError::EmptyPayload));
}

#[test]
fn out_of_range_code_is_rejected() {
    let mut d = letters_only();
    assert_eq!(d.handle(&[32]), Err(DispatchError::CodeOutOfRange(32)));
    assert_eq!(d.handle(&[0xff]), Err(DispatchError::CodeOutOfRange(0xff)));
    assert_eq!(decode(&[31]), Ok(31));
}

#[test]
fn decode_then_lookup_gives_the_table_entry() {
    let p = letters_with_switch();
    for c in 0..CHORD_COUNT as u8 {
        let got = p.resolve(&[c, 9]).unwrap();
        assert_eq!(format!("{:?}", got), format!("{:?}", p.binding(c)));
    }
    assert!(matches!(p.resolve(&[1]), Ok(Binding::PressKey(KEY_A))));
    assert!(matches!(p.resolve(&[40]), Err(DispatchError::CodeOutOfRange(40))));
}

#[test]
fn letters_profile_table() {
    let p = letters_profile();
    assert_eq!(p.name(), "Letters");
    let expected: [u16; 32] = [
        0, 30, 18, 49, 23, 32, 20, 0, 24, 37, 50, 33, 38, 34, 0, 19, 22, 21, 48, 25, 44, 17,
        16, 36, 31, 0, 45, 47, 0, 46, 35, 0,
    ];
    for (c, k) in expected.iter().enumerate() {
        match p.binding(c as u8) {
            Binding::Empty => assert_eq!(*k, 0),
            Binding::PressKey(got) => assert_eq!(got, k),
            other => panic!("unexpected binding {:?}", other),
        }
    }
}

#[test]
fn profile_needs_one_binding_per_code() {
    assert!(Profile::new(String::from("short"), table(|_| Binding::Empty)[..31].to_vec()).is_none());
    let mut long = table(|_| Binding::Empty);
    long.push(Binding::Empty);
    assert!(Profile::new(String::from("long"), long).is_none());
    assert!(Profile::new(String::from("ok"), table(|_| Binding::Empty)).is_some());
}

#[test]
fn dispatcher_needs_distinct_profiles() {
    assert!(Dispatcher::new(vec![], TogglePolicy::CarryOver).is_none());
    assert!(Dispatcher::new(vec![letters_profile(), letters_profile()], TogglePolicy::CarryOver)
        .is_none());
    let d = two_profiles(TogglePolicy::CarryOver);
    assert_eq!(d.active_name(), "Letters");
}

#[test]
fn press_key_is_click_then_synchronize() {
    let mut d = two_profiles(TogglePolicy::CarryOver);
    assert_eq!(d.handle(&[5]), Ok(vec![SinkCall::Click(32), SinkCall::Synchronize]));
    assert_eq!(d.handle(&[5]), Ok(vec![SinkCall::Click(32), SinkCall::Synchronize]));
}

#[test]
fn toggle_twice_presses_then_releases() {
    let mut d = two_profiles(TogglePolicy::CarryOver);
    assert!(!d.is_held(42));
    assert_eq!(d.handle(&[7]), Ok(vec![SinkCall::KeyDown(42), SinkCall::Synchronize]));
    assert!(d.is_held(42));
    assert_eq!(d.handle(&[7]), Ok(vec![SinkCall::KeyUp(42), SinkCall::Synchronize]));
    assert!(!d.is_held(42));
    assert_eq!(d.handle(&[7]), Ok(vec![SinkCall::KeyDown(42), SinkCall::Synchronize]));
}

#[test]
fn macro_is_a_no_op() {
    let mut d = two_profiles(TogglePolicy::CarryOver);
    assert_eq!(d.handle(&[14]), Ok(vec![]));
    assert_eq!(d.active_name(), "Letters");
}

#[test]
fn switch_profile_resolves_against_new_table() {
    let mut d = two_profiles(TogglePolicy::CarryOver);
    assert_eq!(d.handle(&[1]), Ok(vec![SinkCall::Click(KEY_A), SinkCall::Synchronize]));
    assert_eq!(d.handle(&[28]), Ok(vec![]));
    assert_eq!(d.active_name(), "Numbers");
    assert_eq!(d.handle(&[1]), Ok(vec![SinkCall::Click(2), SinkCall::Synchronize]));
    assert_eq!(d.handle(&[29]), Ok(vec![]));
    assert_eq!(d.handle(&[28]), Ok(vec![]));
    assert_eq!(d.active_name(), "Letters");
    assert_eq!(d.handle(&[1]), Ok(vec![SinkCall::Click(KEY_A), SinkCall::Synchronize]));
}

#[test]
fn unknown_profile_keeps_active_one() {
    let mut d = two_profiles(TogglePolicy::CarryOver);
    assert_eq!(d.handle(&[31]), Err(DispatchError::UnknownProfile));
    assert_eq!(d.active_name(), "Letters");
}

#[test]
fn switch_resets_toggles_under_reset_policy() {
    let mut d = two_profiles(TogglePolicy::ResetOnSwitch);
    d.handle(&[7]).unwrap();
    assert!(d.is_held(42));
    d.handle(&[28]).unwrap();
    assert!(!d.is_held(42));
}

#[test]
fn switch_keeps_toggles_under_carry_over_policy() {
    let mut d = two_profiles(TogglePolicy::CarryOver);
    d.handle(&[7]).unwrap();
    d.handle(&[28]).unwrap();
    d.handle(&[28]).unwrap();
    assert!(d.is_held(42));
    assert_eq!(d.handle(&[7]), Ok(vec![SinkCall::KeyUp(42), SinkCall::Synchronize]));
}
