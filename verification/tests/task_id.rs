use warp_app::task_id::AmbientAgentTaskId;

#[test]
fn task_ids_parse_and_print_in_hyphenated_form() {
    let id = AmbientAgentTaskId::from_str("550e8400-e29b-41d4-a716-446655440000").expect("valid id");
    assert_eq!(id.as_u128(), 0x550e8400e29b41d4a716446655440000);
    assert_eq!(id.to_string(), "550e8400-e29b-41d4-a716-446655440000");
    let again = AmbientAgentTaskId::from_str(&id.to_string()).expect("round trip");
    assert_eq!(again, id);
}

#[test]
fn other_uuid_forms_are_accepted() {
    let simple = AmbientAgentTaskId::from_str("550e8400e29b41d4a716446655440000").expect("simple form");
    assert_eq!(simple.to_string(), "550e8400-e29b-41d4-a716-446655440000");
}

#[test]
fn nil_and_malformed_ids_are_rejected() {
    assert!(AmbientAgentTaskId::from_str("00000000-0000-0000-0000-000000000000").is_err());
    assert!(AmbientAgentTaskId::from_str("not-a-uuid").is_err());
    assert!(AmbientAgentTaskId::from_str("").is_err());
}

#[test]
fn task_ids_from_parsed_uuids() {
    assert!(AmbientAgentTaskId::try_from_u128(0).is_none());
    let id = AmbientAgentTaskId::try_from_u128(0xa1a2a3a4b1b2c1c2d1d2d3d4d5d6d7d8).unwrap();
    assert_eq!(id.to_string(), "a1a2a3a4-b1b2-c1c2-d1d2-d3d4d5d6d7d8");
}

#[test]
fn braced_urn_and_upper_case_forms_read_as_the_same_id() {
    let id = AmbientAgentTaskId::from_str("550e8400-e29b-41d4-a716-446655440000").unwrap();
    let braced = AmbientAgentTaskId::from_str("{550E8400-E29B-41D4-A716-446655440000}").expect("braced form");
    let urn = AmbientAgentTaskId::from_str("URN:uuid:550e8400-e29b-41d4-a716-446655440000").expect("urn form");
    assert_eq!(braced, id);
    assert_eq!(urn, id);
    assert!(AmbientAgentTaskId::from_str("550e8400-e29b-41d4-a716-44665544000g").is_err());
    assert!(AmbientAgentTaskId::from_str("550e8400_e29b_41d4_a716_446655440000").is_err());
    assert!(AmbientAgentTaskId::from_str("[550e8400-e29b-41d4-a716-446655440000]").is_err());
}
