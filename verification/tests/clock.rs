use timerrs::clock::TimeOfDay;

fn label(hour: u8, minute: u8) -> String {
    TimeOfDay::new(hour, minute).unwrap().label()
}

#[test]
fn time_of_day_takes_what_a_clock_shows() {
    assert!(TimeOfDay::new(0, 0).is_some());
    assert!(TimeOfDay::new(23, 59).is_some());
    assert!(TimeOfDay::new(24, 0).is_none());
    assert!(TimeOfDay::new(23, 60).is_none());
    assert!(TimeOfDay::new(255, 255).is_none());
    let time = TimeOfDay::new(15, 45).unwrap();
    assert_eq!(time.hour(), 15);
    assert_eq!(time.minute(), 45);
    assert_eq!(TimeOfDay::midnight(), TimeOfDay::new(0, 0).unwrap());
}

#[test]
fn label_is_a_twelve_hour_clock() {
    assert_eq!(label(15, 45), "03:45PM");
    assert_eq!(label(9, 5), "09:05AM");
    assert_eq!(label(11, 59), "11:59AM");
    assert_eq!(label(23, 59), "11:59PM");
    assert_eq!(label(10, 30), "10:30AM");
    assert_eq!(label(22, 0), "10:00PM");
}

#[test]
fn label_shows_twelve_at_midnight_and_noon() {
    assert_eq!(label(0, 0), "12:00AM");
    assert_eq!(label(0, 7), "12:07AM");
    assert_eq!(label(12, 0), "12:00PM");
    assert_eq!(label(12, 34), "12:34PM");
    assert_eq!(TimeOfDay::midnight().label(), "12:00AM");
}

#[test]
fn label_of_every_minute_has_the_same_shape() {
    for hour in 0..24u8 {
        for minute in 0..60u8 {
            let text = label(hour, minute);
            let dial = if hour % 12 == 0 { 12 } else { hour % 12 };
            let half = if hour >= 12 { "PM" } else { "AM" };
            assert_eq!(text, format!("{:02}:{:02}{}", dial, minute, half));
        }
    }
}

#[test]
fn wall_clock_reading_is_a_time_of_day() {
    let now = TimeOfDay::now();
    assert!(now.hour() < 24);
    assert!(now.minute() < 60);
    assert_eq!(now.label().chars().count(), 7);
    assert_eq!(TimeOfDay::new(now.hour(), now.minute()), Some(now));
}
