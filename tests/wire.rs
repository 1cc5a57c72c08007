use phonebook::{Instruction, Response, WireError};

fn s(x: &str) -> String {
    x.to_string()
}

fn instruction_round_trip(i: Instruction) {
    let bytes = i.encode();
    let back = Instruction::decode(&bytes).unwrap();
    assert_eq!(back.to_fields(), i.to_fields());
}

fn response_round_trip(r: Response) {
    let bytes = r.encode();
    let back = Response::decode(&bytes).unwrap();
    assert_eq!(back.to_fields(), r.to_fields());
}

#[test]
fn instructions_round_trip() {
    instruction_round_trip(Instruction::AddPhoneNumber { key: s("Alice"), number: s("+14155552671") });
    instruction_round_trip(Instruction::DeleteUser { key: s("Bob \"the\" \\ builder") });
    instruction_round_trip(Instruction::EditNumber { key: s("Alice"), number: s("+442071838750") });
    instruction_round_trip(Instruction::GetAllUsers);
}

#[test]
fn responses_round_trip() {
    response_round_trip(Response::Fail { message: s("no table\nat all") });
    response_round_trip(Response::Number { number: s("+14155552671") });
    response_round_trip(Response::Success);
    response_round_trip(Response::AllUsers(vec![]));
    response_round_trip(Response::AllUsers(vec![(s("Alice"), s("+14155552671"))]));
    response_round_trip(Response::AllUsers(vec![
        (s("Alice"), s("+14155552671")),
        (s("Bob"), s("not-a-number")),
        (s("Zoë"), s("")),
    ]));
}

#[test]
fn decoded_instruction_keeps_fields() {
    let bytes = Instruction::EditNumber { key: s("Alice"), number: s("+442071838750") }.encode();
    match Instruction::decode(&bytes) {
        Ok(Instruction::EditNumber { key, number }) => {
            assert_eq!(key, "Alice");
            assert_eq!(number, "+442071838750");
        }
        _ => panic!("wrong instruction"),
    }
}

#[test]
fn decoded_all_users_keeps_order() {
    let pairs = vec![(s("b"), s("2")), (s("a"), s("1"))];
    let bytes = Response::AllUsers(pairs.clone()).encode();
    match Response::decode(&bytes) {
        Ok(Response::AllUsers(back)) => assert_eq!(back, pairs),
        _ => panic!("wrong response"),
    }
}

#[test]
fn encoding_is_a_json_array_of_tag_and_fields() {
    let bytes = Instruction::AddPhoneNumber { key: s("Alice"), number: s("+14155552671") }.encode();
    assert_eq!(bytes, br#"["AddPhoneNumber","Alice","+14155552671"]"#.to_vec());
    let bytes = Response::AllUsers(vec![(s("A"), s("1")), (s("B"), s("2"))]).encode();
    assert_eq!(bytes, br#"["AllUsers","A","1","B","2"]"#.to_vec());
    assert_eq!(Response::Success.encode(), br#"["Success"]"#.to_vec());
}

#[test]
fn malformed_payloads_are_rejected() {
    let bad: Vec<&[u8]> = vec![
        b"",
        b"not json",
        br#"["AddPhoneNumber","Alice"]"#,
        br#"["DeleteUser"]"#,
        br#"["GetAllUsers","x"]"#,
        br#"["Unknown"]"#,
        br#"[]"#,
        br#"{"GetAllUsers":null}"#,
        br#"["AddPhoneNumber","Alice","+1"#,
    ];
    for b in bad {
        assert!(matches!(Instruction::decode(b), Err(WireError::MalformedMessage)));
    }
    assert!(matches!(
        Response::decode(br#"["AllUsers","Alice"]"#),
        Err(WireError::MalformedMessage)
    ));
    assert!(matches!(Response::decode(br#"["Success",""]"#), Err(WireError::MalformedMessage)));
    assert!(matches!(Response::decode(br#"["GetAllUsers"]"#), Err(WireError::MalformedMessage)));
}

#[test]
fn fields_are_read_back() {
    let f = vec![s("DeleteUser"), s("Alice")];
    match Instruction::from_fields(&f) {
        Ok(Instruction::DeleteUser { key }) => assert_eq!(key, "Alice"),
        _ => panic!("wrong instruction"),
    }
    let f = vec![s("Fail"), s("boom")];
    match Response::from_fields(&f) {
        Ok(Response::Fail { message }) => assert_eq!(message, "boom"),
        _ => panic!("wrong response"),
    }
}
