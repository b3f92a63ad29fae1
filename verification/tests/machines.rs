use coopfw::machines::Delay;

#[test]
fn delay_claims_matching_id_once() {
    let mut d = Delay::new(7);
    assert!(!d.on_alarm(6));
    assert_eq!(d, Delay::Waiting { qq_alarm_id: 7 });
    assert!(d.on_alarm(7));
    assert_eq!(d, Delay::Done);
}

#[test]
fn delay_done_is_terminal() {
    // once done, every later offer is refused, whatever id it carries
    let mut d = Delay::new(3);
    assert!(d.on_alarm(3));
    assert!(!d.on_alarm(3));
    assert!(!d.on_alarm(4));
    assert!(!d.on_alarm(usize::MAX));
    assert_eq!(d, Delay::Done);
}
