use flightlink::buzzer::{BuzzPattern, Buzzer};

#[test]
fn new_buzzer_is_silent() {
    let mut b = Buzzer::new();
    assert!(!b.playing);
    assert_eq!(b.period, 5000);
    assert_eq!(b.cycle(), None);
}

#[test]
fn start_plays_the_pattern_every_cycle() {
    let mut b = Buzzer::new();
    b.period(100);
    b.pattern(BuzzPattern::Beep { frequency: 4186, duration: 50 });
    b.start();
    assert_eq!(b.cycle(), Some((4186, 50)));
    assert_eq!(b.cycle(), Some((4186, 50)));
    b.stop();
    assert_eq!(b.cycle(), None);
}

#[test]
fn once_stops_after_one_cycle() {
    let mut b = Buzzer::new();
    b.pattern(BuzzPattern::Beep { frequency: 1000, duration: 20 });
    b.once();
    assert!(b.playing);
    assert_eq!(b.cycle(), Some((1000, 20)));
    assert!(!b.playing && !b.once);
    assert_eq!(b.cycle(), None);
}

#[test]
fn quiet_pattern_plays_nothing_but_consumes_once() {
    let mut b = Buzzer::new();
    b.once();
    assert_eq!(b.cycle(), None);
    assert!(!b.playing && !b.once);
}
