use phonebook::{Contact, ContactMessage};

fn fresh() -> Contact {
    Contact::new("Alice".to_string(), "+14155552671".to_string())
}

fn edit_cycle(x: &str) -> (Contact, bool) {
    let mut c = fresh();
    assert!(!c.update(ContactMessage::Edit));
    assert!(!c.update(ContactMessage::Edited(x.to_string())));
    let committed = c.update(ContactMessage::FinishEdition);
    (c, committed)
}

#[test]
fn new_contact_is_idle_and_correct() {
    let c = fresh();
    assert!(!c.is_editing());
    assert!(c.is_correct);
    assert_eq!(c.name, "Alice");
    assert_eq!(c.number, "+14155552671");
}

#[test]
fn valid_edit_is_committed() {
    let (c, committed) = edit_cycle("+442071838750");
    assert!(committed);
    assert!(!c.is_editing());
    assert!(c.is_correct);
    assert_eq!(c.number, "+442071838750");
}

#[test]
fn empty_edit_stays_in_edit_mode_and_correct() {
    let (c, committed) = edit_cycle("");
    assert!(!committed);
    assert!(c.is_editing());
    assert!(c.is_correct);
    assert_eq!(c.number, "+14155552671");
}

#[test]
fn invalid_edit_stays_in_edit_mode_and_incorrect() {
    let (c, committed) = edit_cycle("not-a-number");
    assert!(!committed);
    assert!(c.is_editing());
    assert!(!c.is_correct);
    assert_eq!(c.number, "+14155552671");
}

#[test]
fn edit_starts_from_current_number() {
    let mut c = fresh();
    c.update(ContactMessage::Edit);
    assert!(c.update(ContactMessage::FinishEdition));
    assert_eq!(c.number, "+14155552671");
    assert!(!c.is_editing());
}

#[test]
fn messages_out_of_place_are_ignored() {
    let mut c = fresh();
    assert!(!c.update(ContactMessage::Edited("+442071838750".to_string())));
    assert!(!c.update(ContactMessage::FinishEdition));
    assert!(!c.update(ContactMessage::Delete));
    assert!(!c.is_editing());
    assert_eq!(c.number, "+14155552671");
}

#[test]
fn finish_edition_uses_given_answer() {
    let mut c = fresh();
    c.update(ContactMessage::Edit);
    c.update(ContactMessage::Edited("123".to_string()));
    assert!(!c.finish_edition(false));
    assert!(!c.is_correct);
    assert!(c.finish_edition(true));
    assert_eq!(c.number, "123");
    assert!(c.is_correct);
    assert!(!c.is_editing());
}
