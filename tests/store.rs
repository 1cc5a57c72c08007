use phonebook::{query_for, respond, Instruction, Response, Store};

fn s(x: &str) -> String {
    x.to_string()
}

fn all_users(store: &Store) -> Vec<(String, String)> {
    match store.handle(&Instruction::GetAllUsers) {
        Response::AllUsers(rows) => rows,
        _ => panic!("expected all users"),
    }
}

fn is_success(r: &Response) -> bool {
    matches!(r, Response::Success)
}

#[test]
fn deleting_a_missing_key_twice_succeeds() {
    let store = Store::open_in_memory().unwrap();
    assert!(is_success(&store.handle(&Instruction::DeleteUser { key: s("Nobody") })));
    assert!(is_success(&store.handle(&Instruction::DeleteUser { key: s("Nobody") })));
    assert!(all_users(&store).is_empty());
}

#[test]
fn added_number_is_listed() {
    let store = Store::open_in_memory().unwrap();
    let r = store.handle(&Instruction::AddPhoneNumber { key: s("Alice"), number: s("+14155552671") });
    assert!(is_success(&r));
    assert_eq!(all_users(&store), vec![(s("Alice"), s("+14155552671"))]);
}

#[test]
fn store_keeps_invalid_numbers_verbatim() {
    let store = Store::open_in_memory().unwrap();
    let r = store.handle(&Instruction::AddPhoneNumber { key: s("Bob"), number: s("not-a-number") });
    assert!(is_success(&r));
    assert_eq!(all_users(&store), vec![(s("Bob"), s("not-a-number"))]);
}

#[test]
fn edit_changes_only_its_row() {
    let store = Store::open_in_memory().unwrap();
    store.handle(&Instruction::AddPhoneNumber { key: s("Alice"), number: s("+14155552671") });
    store.handle(&Instruction::AddPhoneNumber { key: s("Bob"), number: s("+16505550100") });
    let r = store.handle(&Instruction::EditNumber { key: s("Alice"), number: s("+442071838750") });
    assert!(is_success(&r));
    let mut rows = all_users(&store);
    rows.sort();
    assert_eq!(
        rows,
        vec![(s("Alice"), s("+442071838750")), (s("Bob"), s("+16505550100"))]
    );
}

#[test]
fn delete_removes_the_row() {
    let store = Store::open_in_memory().unwrap();
    store.handle(&Instruction::AddPhoneNumber { key: s("Alice"), number: s("1") });
    store.handle(&Instruction::AddPhoneNumber { key: s("Bob"), number: s("2") });
    assert!(is_success(&store.handle(&Instruction::DeleteUser { key: s("Alice") })));
    assert_eq!(all_users(&store), vec![(s("Bob"), s("2"))]);
}

#[test]
fn store_allows_duplicate_names() {
    let store = Store::open_in_memory().unwrap();
    store.handle(&Instruction::AddPhoneNumber { key: s("Alice"), number: s("1") });
    store.handle(&Instruction::AddPhoneNumber { key: s("Alice"), number: s("2") });
    assert_eq!(all_users(&store).len(), 2);
}

#[test]
fn serve_answers_payloads() {
    let store = Store::open_in_memory().unwrap();
    let add = Instruction::AddPhoneNumber { key: s("Alice"), number: s("+14155552671") }.encode();
    let reply = store.serve(&add).unwrap();
    assert!(matches!(Response::decode(&reply), Ok(Response::Success)));
    let reply = store.serve(&Instruction::GetAllUsers.encode()).unwrap();
    match Response::decode(&reply) {
        Ok(Response::AllUsers(rows)) => assert_eq!(rows, vec![(s("Alice"), s("+14155552671"))]),
        _ => panic!("expected all users"),
    }
    assert!(store.serve(b"garbage").is_err());
}

#[test]
fn queries_bind_their_fields() {
    let q = query_for(&Instruction::EditNumber { key: s("Alice"), number: s("9") });
    assert_eq!(q.sql, "UPDATE users SET number = :number WHERE name = :key");
    assert_eq!(q.params, vec![(s(":key"), s("Alice")), (s(":number"), s("9"))]);
    let q = query_for(&Instruction::GetAllUsers);
    assert_eq!(q.sql, "SELECT name, number FROM users");
    assert!(q.params.is_empty());
}

#[test]
fn respond_maps_outcomes() {
    let del = Instruction::DeleteUser { key: s("A") };
    assert!(is_success(&respond(&del, Ok(vec![]))));
    match respond(&del, Err(s("disk full"))) {
        Response::Fail { message } => {
            assert_eq!(message, "Sqlite failure on deleting user entry: disk full")
        }
        _ => panic!("expected failure"),
    }
    match respond(&Instruction::GetAllUsers, Ok(vec![(s("A"), s("1"))])) {
        Response::AllUsers(rows) => assert_eq!(rows, vec![(s("A"), s("1"))]),
        _ => panic!("expected all users"),
    }
}
