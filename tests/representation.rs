use chrono::DateTime;
use gate_api::representation::{
    ActiveHours, ActiveHoursPerWeek, ApiInfo, Comment, Config, Gate, GateStateRep,
};
use gate_api::time::{TimeOfDay, Timestamp};
use gate_api::types;
use gate_api::types::{GateState, Weekday};

fn ts(text: &str) -> Timestamp {
    let dt = DateTime::parse_from_rfc3339(text).expect("can not convert date");
    Timestamp::new(dt.timestamp(), dt.timestamp_subsec_nanos())
}

fn key(group: &str, service: &str, environment: &str) -> types::GateKey {
    types::GateKey::new(group.to_owned(), service.to_owned(), environment.to_owned())
}

fn domain_comment(id: &str, message: &str, created: &str) -> types::Comment {
    types::Comment::new(id.to_owned(), message.to_owned(), ts(created))
}

fn some_gate(group: &str, service: &str, environment: &str) -> types::Gate {
    let mut gate = types::Gate::new(
        key(group, service, environment),
        GateState::Open,
        ts("2023-04-12T22:10:57+02:00"),
        Option::default(),
    );
    gate.insert_comment(domain_comment(
        "Comment1",
        "Some comment message",
        "2021-04-12T22:10:57+02:00",
    ));
    gate.insert_comment(domain_comment(
        "Comment2",
        "Some other comment message",
        "2022-04-12T22:10:57+02:00",
    ));
    gate
}

fn time_of_day(h: u32, m: u32) -> TimeOfDay {
    TimeOfDay::new(h * 3600 + m * 60, 0)
}

#[test]
fn should_convert_domain_gate_to_representation() {
    let gate = some_gate("some-group", "some-service", "some-environment");
    let actual: Gate = gate.into();
    let expected = Gate {
        group: "some-group".to_owned(),
        service: "some-service".to_owned(),
        environment: "some-environment".to_owned(),
        state: GateState::Open,
        comments: vec![
            Comment {
                id: "Comment1".into(),
                message: "Some comment message".into(),
                created: ts("2021-04-12T20:10:57Z"),
            },
            Comment {
                id: "Comment2".into(),
                message: "Some other comment message".into(),
                created: ts("2022-04-12T20:10:57Z"),
            },
        ],
        last_updated: ts("2023-04-12T22:10:57+02:00"),
        display_order: Option::default(),
    };
    assert_eq!(actual, expected);
}

#[test]
fn should_convert_comment() {
    let actual: Comment = types::Comment {
        id: "1234".to_string(),
        message: "Gate closed because of ticket #63468".to_owned(),
        created: ts("2023-04-12T22:10:57+02:00"),
    }
    .into();

    let expected = Comment {
        id: "1234".to_string(),
        message: "Gate closed because of ticket #63468".to_owned(),
        created: ts("2023-04-12T22:10:57+02:00"),
    };
    assert_eq!(actual, expected);
}

#[test]
fn comments_come_out_oldest_first_whatever_the_insertion_order() {
    let mut gate = types::Gate::new(key("g", "s", "e"), GateState::Closed, ts("2023-01-01T00:00:00Z"), None);
    gate.insert_comment(domain_comment("b", "later", "2022-04-12T20:10:57Z"));
    gate.insert_comment(domain_comment("a", "earlier", "2021-04-12T20:10:57Z"));
    let rep = Gate::from(gate);
    let ids: Vec<&str> = rep.comments.iter().map(|c| c.id.as_str()).collect();
    assert_eq!(ids, vec!["a", "b"]);
    assert!(rep.comments[0].created.le(&rep.comments[1].created));
}

#[test]
fn comments_created_at_one_instant_keep_their_order() {
    let mut gate = types::Gate::new(key("g", "s", "e"), GateState::Open, ts("2023-01-01T00:00:00Z"), None);
    gate.insert_comment(domain_comment("x", "third", "2022-01-01T00:00:00Z"));
    gate.insert_comment(domain_comment("y", "first", "2021-01-01T00:00:00Z"));
    gate.insert_comment(domain_comment("z", "second", "2021-01-01T00:00:00Z"));
    let rep = Gate::from(gate);
    let ids: Vec<&str> = rep.comments.iter().map(|c| c.id.as_str()).collect();
    assert_eq!(ids, vec!["y", "z", "x"]);
}

#[test]
fn comments_sort_by_nanoseconds_within_a_second() {
    let mut gate = types::Gate::new(key("g", "s", "e"), GateState::Open, Timestamp::new(0, 0), None);
    gate.insert_comment(types::Comment::new("late".into(), "m".into(), Timestamp::new(100, 900)));
    gate.insert_comment(types::Comment::new("early".into(), "m".into(), Timestamp::new(100, 5)));
    gate.insert_comment(types::Comment::new("before".into(), "m".into(), Timestamp::new(-3, 999_999_999)));
    let rep = Gate::from(gate);
    let ids: Vec<&str> = rep.comments.iter().map(|c| c.id.as_str()).collect();
    assert_eq!(ids, vec!["before", "early", "late"]);
}

#[test]
fn display_order_absent_stays_absent() {
    let gate = types::Gate::new(key("g", "s", "e"), GateState::Open, ts("2023-01-01T00:00:00Z"), None);
    let rep = Gate::from(gate);
    assert_eq!(rep.display_order, None);
}

#[test]
fn display_order_present_is_kept() {
    let mut gate = types::Gate::new(key("g", "s", "e"), GateState::Open, ts("2023-01-01T00:00:00Z"), None);
    gate.set_display_order(Some(3));
    let rep = Gate::from(gate);
    assert_eq!(rep.display_order, Some(3));
}

#[test]
fn display_order_zero_differs_from_absent() {
    let gate = types::Gate::new(key("g", "s", "e"), GateState::Open, ts("2023-01-01T00:00:00Z"), Some(0));
    let rep = Gate::from(gate);
    assert_eq!(rep.display_order, Some(0));
}

#[test]
fn inserting_the_same_comment_twice_keeps_one() {
    let mut gate = types::Gate::new(key("g", "s", "e"), GateState::Open, ts("2023-01-01T00:00:00Z"), None);
    assert!(gate.insert_comment(domain_comment("1", "msg", "2021-04-12T20:10:57Z")));
    assert_eq!(gate.comments().len(), 1);
    assert!(!gate.insert_comment(domain_comment("1", "msg", "2021-04-12T20:10:57Z")));
    assert_eq!(gate.comments().len(), 1);
}

#[test]
fn comments_with_one_id_and_other_content_are_both_kept() {
    let mut gate = types::Gate::new(key("g", "s", "e"), GateState::Open, ts("2023-01-01T00:00:00Z"), None);
    assert!(gate.insert_comment(domain_comment("1", "msg", "2021-04-12T20:10:57Z")));
    assert!(gate.insert_comment(domain_comment("1", "other", "2021-04-12T20:10:57Z")));
    assert!(gate.insert_comment(domain_comment("1", "msg", "2021-04-12T20:10:58Z")));
    assert_eq!(gate.comments().len(), 3);
}

#[test]
fn round_trip_keeps_key_state_and_last_update() {
    let gate = some_gate("grp", "svc", "env");
    let rep: Gate = gate.into();
    assert_eq!(rep.group, "grp");
    assert_eq!(rep.service, "svc");
    assert_eq!(rep.environment, "env");
    assert_eq!(rep.state, GateState::Open);
    assert_eq!(rep.last_updated, ts("2023-04-12T20:10:57Z"));
}

#[test]
fn conversion_is_repeatable() {
    let first = Gate::from(some_gate("g", "s", "e"));
    let second = Gate::from(some_gate("g", "s", "e"));
    assert_eq!(first, second);
}

#[test]
fn state_only_shape_holds_the_state() {
    let mut gate = some_gate("g", "s", "e");
    gate.set_state(GateState::Closed);
    let rep = GateStateRep::from(gate);
    assert_eq!(rep, GateStateRep { state: GateState::Closed });
}

#[test]
fn config_with_only_monday() {
    let mut week = types::ActiveHoursPerWeek::unrestricted();
    week.set(Weekday::Monday, Some(types::ActiveHours::new(time_of_day(8, 0), time_of_day(17, 30))));
    let config = types::Config::new(ts("2023-04-12T20:10:57Z"), week);
    let rep = Config::from(config);
    assert_eq!(rep.system_time, ts("2023-04-12T20:10:57Z"));
    let days = rep.active_hours_per_week;
    assert_eq!(
        days.monday,
        Some(ActiveHours { start: TimeOfDay::new(28_800, 0), end: TimeOfDay::new(63_000, 0) })
    );
    assert_eq!(days.tuesday, None);
    assert_eq!(days.wednesday, None);
    assert_eq!(days.thursday, None);
    assert_eq!(days.friday, None);
    assert_eq!(days.saturday, None);
    assert_eq!(days.sunday, None);
}

#[test]
fn week_maps_each_day_for_itself() {
    let mut week = types::ActiveHoursPerWeek::unrestricted();
    week.set(Weekday::Sunday, Some(types::ActiveHours::new(time_of_day(22, 0), time_of_day(6, 0))));
    week.set(Weekday::Wednesday, Some(types::ActiveHours::new(time_of_day(9, 0), time_of_day(9, 0))));
    let rep = ActiveHoursPerWeek::from(week);
    assert_eq!(rep.get(Weekday::Sunday), Some(ActiveHours { start: time_of_day(22, 0), end: time_of_day(6, 0) }));
    assert_eq!(rep.get(Weekday::Wednesday), Some(ActiveHours { start: time_of_day(9, 0), end: time_of_day(9, 0) }));
    assert_eq!(rep.get(Weekday::Monday), None);
    assert_eq!(rep.get(Weekday::Saturday), None);
}

#[test]
fn setting_a_day_leaves_the_others() {
    let mut week = types::ActiveHoursPerWeek::unrestricted();
    let hours = types::ActiveHours::new(time_of_day(8, 0), time_of_day(16, 0));
    week.set(Weekday::Friday, Some(hours));
    week.set(Weekday::Tuesday, Some(hours));
    week.set(Weekday::Friday, None);
    assert_eq!(week.get(Weekday::Tuesday), Some(hours));
    assert_eq!(week.get(Weekday::Friday), None);
    assert_eq!(week.monday, None);
}

#[test]
fn keys_differing_in_environment_are_different_gates() {
    let a = key("g", "s", "e1");
    let b = key("g", "s", "e2");
    assert!(!a.same_gate(&b));
    assert!(a.same_gate(&key("g", "s", "e1")));
}

#[test]
fn last_update_never_moves_back() {
    let mut gate = types::Gate::new(key("g", "s", "e"), GateState::Open, ts("2023-01-01T00:00:00Z"), None);
    gate.record_update(ts("2022-01-01T00:00:00Z"));
    assert_eq!(gate.last_updated(), ts("2023-01-01T00:00:00Z"));
    gate.record_update(ts("2024-01-01T00:00:00Z"));
    assert_eq!(gate.last_updated(), ts("2024-01-01T00:00:00Z"));
}

#[test]
fn api_info_holds_name_and_version() {
    let info = ApiInfo { name: "gatekeeper".into(), version: "1.0.0".into() };
    assert_eq!(info.clone(), info);
}
