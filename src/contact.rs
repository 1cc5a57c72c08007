use vstd::prelude::*;

use crate::phone::{is_valid_number, number_ok};

verus! {

/// Where a contact stands on the client: shown as stored, or being edited
/// with the number typed so far.
pub enum ContactState {
    Idle,
    Editing { pending: String },
}

/// What the user does to one contact.
#[derive(Clone, Debug)]
pub enum ContactMessage {
    Edit,
    FinishEdition,
    Edited(String),
    Delete,
}

/// A contact of the client's local list.
pub struct Contact {
    pub name: String,
    pub number: String,
    pub state: ContactState,
    pub is_correct: bool,
}

/// The mathematical value of a contact: `pending` is `Some` exactly while it
/// is being edited.
pub struct ContactView {
    pub name: Seq<char>,
    pub number: Seq<char>,
    pub pending: Option<Seq<char>>,
    pub is_correct: bool,
}

pub enum ContactMessageView {
    Edit,
    FinishEdition,
    Edited(Seq<char>),
    Delete,
}

impl View for Contact {
    type V = ContactView;

    open spec fn view(&self) -> ContactView {
        ContactView {
            name: self.name@,
            number: self.number@,
            pending: match self.state {
                ContactState::Idle => None,
                ContactState::Editing { pending } => Some(pending@),
            },
            is_correct: self.is_correct,
        }
    }
}

impl View for ContactMessage {
    type V = ContactMessageView;

    open spec fn view(&self) -> ContactMessageView {
        match self {
            ContactMessage::Edit => ContactMessageView::Edit,
            ContactMessage::FinishEdition => ContactMessageView::FinishEdition,
            ContactMessage::Edited(text) => ContactMessageView::Edited(text@),
            ContactMessage::Delete => ContactMessageView::Delete,
        }
    }
}

/// A contact as it is created: idle and marked correct.
pub open spec fn fresh_contact(name: Seq<char>, number: Seq<char>) -> ContactView {
    ContactView { name, number, pending: None, is_correct: true }
}

/// Finishing an edit, given whether the validator accepts the pending number:
/// a non-empty accepted number is committed and the contact goes idle;
/// otherwise it stays in edit mode, marked correct only while the field is empty.
pub open spec fn finish_spec(c: ContactView, valid: bool) -> ContactView {
    match c.pending {
        None => c,
        Some(p) => if p.len() > 0 && valid {
            ContactView { number: p, pending: None, is_correct: true, ..c }
        } else {
            ContactView { is_correct: p.len() == 0, ..c }
        },
    }
}

/// One step of the edit state machine. `Edit` only acts on an idle contact,
/// `Edited` and `FinishEdition` only on one being edited; `Delete` is left to
/// the owner of the list.
pub open spec fn next_contact(c: ContactView, m: ContactMessageView) -> ContactView {
    match m {
        ContactMessageView::Edit => match c.pending {
            None => ContactView { pending: Some(c.number), ..c },
            Some(_) => c,
        },
        ContactMessageView::Edited(text) => match c.pending {
            None => c,
            Some(_) => ContactView { pending: Some(text), ..c },
        },
        ContactMessageView::FinishEdition => match c.pending {
            None => c,
            Some(p) => finish_spec(c, number_ok(p)),
        },
        ContactMessageView::Delete => c,
    }
}

/// Editing a fresh contact, typing `x` and finishing: a valid non-empty `x`
/// is committed and the contact is idle and correct; an empty `x` leaves it
/// in edit mode and correct; any other `x` leaves it in edit mode, incorrect.
pub proof fn lemma_edit_cycle(name: Seq<char>, number: Seq<char>, x: Seq<char>)
    ensures
        ({
            let c = next_contact(
                next_contact(
                    next_contact(fresh_contact(name, number), ContactMessageView::Edit),
                    ContactMessageView::Edited(x),
                ),
                ContactMessageView::FinishEdition,
            );
            &&& number_ok(x) ==> c.pending is None && c.number == x && c.is_correct
            &&& x.len() == 0 ==> c.pending == Some(x) && c.number == number && c.is_correct
            &&& (x.len() > 0 && !number_ok(x)) ==> c.pending == Some(x) && c.number == number
                && !c.is_correct
        }),
{
}

impl Default for ContactState {
    /// A contact starts idle.
    fn default() -> (s: ContactState)
        ensures
            s is Idle,
    {
        ContactState::Idle
    }
}

impl Contact {
    /// A new idle contact, marked correct.
    pub fn new(name: String, number: String) -> (c: Contact)
        ensures
            c@ == fresh_contact(name@, number@),
    {
        Contact { name, number, state: ContactState::Idle, is_correct: true }
    }

    /// Whether the contact is in edit mode.
    pub fn is_editing(&self) -> (r: bool)
        ensures
            r == (self@.pending is Some),
    {
        match self.state {
            ContactState::Idle => false,
            ContactState::Editing { .. } => true,
        }
    }

    /// Ends an edit given the validator's answer on the pending number.
    /// Returns whether a new number was committed.
    pub fn finish_edition(&mut self, valid: bool) -> (committed: bool)
        ensures
            final(self)@ == finish_spec(old(self)@, valid),
            committed == (final(self)@.pending is None && old(self)@.pending is Some),
    {
        let mut pending = String::new();
        let editing = match &self.state {
            ContactState::Idle => false,
            ContactState::Editing { pending: p } => {
                pending = p.clone();
                true
            },
        };
        if !editing {
            return false;
        }
        let empty = pending.as_str().is_empty();
        if !empty && valid {
            self.number = pending;
            self.is_correct = true;
            self.state = ContactState::Idle;
            true
        } else {
            self.is_correct = empty;
            false
        }
    }

    /// Applies one user message. Returns whether a new number was committed,
    /// which the owner of the list then sends to the store.
    pub fn update(&mut self, message: ContactMessage) -> (committed: bool)
        ensures
            final(self)@ == next_contact(old(self)@, message@),
            committed == (message@ is FinishEdition && old(self)@.pending is Some
                && number_ok(old(self)@.pending->Some_0)),
    {
        match message {
            ContactMessage::Edit => {
                if !self.is_editing() {
                    self.state = ContactState::Editing { pending: self.number.clone() };
                }
                false
            },
            ContactMessage::Edited(text) => {
                if self.is_editing() {
                    self.state = ContactState::Editing { pending: text };
                }
                false
            },
            ContactMessage::FinishEdition => {
                let valid = match &self.state {
                    ContactState::Idle => false,
                    ContactState::Editing { pending } => is_valid_number(pending.as_str()),
                };
                self.finish_edition(valid)
            },
            ContactMessage::Delete => false,
        }
    }
}

} // verus!
