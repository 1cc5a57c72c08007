use vstd::prelude::*;

use crate::contact::{
    Contact, ContactMessage, ContactMessageView, ContactView, fresh_contact, next_contact,
};
use crate::phone::{is_valid_number, number_ok};
use crate::wire::{Instruction, InstructionView, Response, ResponseView, WireError, pair_view};

verus! {

/// An event of the client: text typed into one of the four input fields
/// (local address and port, or contact name and number once connected; the
/// last two are the store's address and port), a connect request, a message
/// for one contact of the list, or a request to add, fetch or delete.
#[derive(Clone, Debug)]
pub enum Message {
    InputChanged(String),
    InputChanged2(String),
    InputChanged3(String),
    InputChanged4(String),
    Continue,
    ContactMessage(usize, ContactMessage),
    AddUser,
    GetAllUsers,
    DeleteUsers,
}

pub enum MessageView {
    InputChanged(Seq<char>),
    InputChanged2(Seq<char>),
    InputChanged3(Seq<char>),
    InputChanged4(Seq<char>),
    Continue,
    ContactMessage(usize, ContactMessageView),
    AddUser,
    GetAllUsers,
    DeleteUsers,
}

impl View for Message {
    type V = MessageView;

    open spec fn view(&self) -> MessageView {
        match self {
            Message::InputChanged(t) => MessageView::InputChanged(t@),
            Message::InputChanged2(t) => MessageView::InputChanged2(t@),
            Message::InputChanged3(t) => MessageView::InputChanged3(t@),
            Message::InputChanged4(t) => MessageView::InputChanged4(t@),
            Message::Continue => MessageView::Continue,
            Message::ContactMessage(i, m) => MessageView::ContactMessage(*i, m@),
            Message::AddUser => MessageView::AddUser,
            Message::GetAllUsers => MessageView::GetAllUsers,
            Message::DeleteUsers => MessageView::DeleteUsers,
        }
    }
}

/// What the caller must do after an event: nothing; bind a socket to the
/// local address and connect it to the store's; send an instruction and
/// forget it; or send an instruction and hand the one datagram that comes
/// back to `State::reconcile`.
pub enum Effect {
    Nothing,
    Connect { from_ip: String, from_port: String, ip: String, port: String },
    Send(Instruction),
    Fetch(Instruction),
}

pub enum EffectView {
    Nothing,
    Connect { from_ip: Seq<char>, from_port: Seq<char>, ip: Seq<char>, port: Seq<char> },
    Send(InstructionView),
    Fetch(InstructionView),
}

impl View for Effect {
    type V = EffectView;

    open spec fn view(&self) -> EffectView {
        match self {
            Effect::Nothing => EffectView::Nothing,
            Effect::Connect { from_ip, from_port, ip, port } => EffectView::Connect {
                from_ip: from_ip@,
                from_port: from_port@,
                ip: ip@,
                port: port@,
            },
            Effect::Send(i) => EffectView::Send(i@),
            Effect::Fetch(i) => EffectView::Fetch(i@),
        }
    }
}

/// Why a full refresh could not be applied.
#[derive(Clone, Copy, Debug, PartialEq, Eq)]
pub enum SyncError {
    MalformedMessage,
    UnexpectedResponse,
}

/// The connected client: its contact list and the two fields of the
/// new-contact form.
pub struct State {
    pub contacts: Vec<Contact>,
    pub name_value: String,
    pub number_value: String,
}

pub struct StateView {
    pub contacts: Seq<ContactView>,
    pub name: Seq<char>,
    pub number: Seq<char>,
}

pub open spec fn contacts_view(v: Seq<Contact>) -> Seq<ContactView> {
    v.map_values(|c: Contact| c@)
}

impl View for State {
    type V = StateView;

    open spec fn view(&self) -> StateView {
        StateView {
            contacts: contacts_view(self.contacts@),
            name: self.name_value@,
            number: self.number_value@,
        }
    }
}

/// The client: collecting the addresses to connect with, or connected.
pub enum App {
    Loading {
        from_ip_value: String,
        from_port_value: String,
        ip_value: String,
        port_value: String,
        err: String,
    },
    Loaded(State),
}

pub enum AppView {
    Loading {
        from_ip: Seq<char>,
        from_port: Seq<char>,
        ip: Seq<char>,
        port: Seq<char>,
        err: Seq<char>,
    },
    Loaded(StateView),
}

impl View for App {
    type V = AppView;

    open spec fn view(&self) -> AppView {
        match self {
            App::Loading { from_ip_value, from_port_value, ip_value, port_value, err } =>
                AppView::Loading {
                from_ip: from_ip_value@,
                from_port: from_port_value@,
                ip: ip_value@,
                port: port_value@,
                err: err@,
            },
            App::Loaded(s) => AppView::Loaded(s@),
        }
    }
}

/// Whether some contact of the list has the name.
pub open spec fn name_taken(contacts: Seq<ContactView>, name: Seq<char>) -> bool {
    exists|j: int| 0 <= j < contacts.len() && (#[trigger] contacts[j]).name == name
}

/// Whether a message to contact `c` commits a new number.
pub open spec fn commits(c: ContactView, m: ContactMessageView) -> bool {
    m is FinishEdition && c.pending is Some && number_ok(c.pending->Some_0)
}

/// The connected client's answer to an event: its next state and the effect.
pub open spec fn state_next(s: StateView, m: MessageView) -> (StateView, EffectView) {
    match m {
        MessageView::InputChanged(t) => (StateView { name: t, ..s }, EffectView::Nothing),
        MessageView::InputChanged2(t) => (StateView { number: t, ..s }, EffectView::Nothing),
        MessageView::AddUser => if name_taken(s.contacts, s.name) {
            (s, EffectView::Nothing)
        } else {
            (
                StateView {
                    contacts: s.contacts.push(fresh_contact(s.name, s.number)),
                    name: Seq::empty(),
                    number: Seq::empty(),
                },
                EffectView::Send(InstructionView::AddPhoneNumber { key: s.name, number: s.number }),
            )
        },
        MessageView::ContactMessage(i, cm) => if i >= s.contacts.len() {
            (s, EffectView::Nothing)
        } else if cm is Delete {
            (
                StateView { contacts: s.contacts.remove(i as int), ..s },
                EffectView::Send(InstructionView::DeleteUser { key: s.contacts[i as int].name }),
            )
        } else {
            let c = s.contacts[i as int];
            let c2 = next_contact(c, cm);
            (
                StateView { contacts: s.contacts.update(i as int, c2), ..s },
                if commits(c, cm) {
                    EffectView::Send(InstructionView::EditNumber { key: c.name, number: c2.number })
                } else {
                    EffectView::Nothing
                },
            )
        },
        MessageView::GetAllUsers => (s, EffectView::Fetch(InstructionView::GetAllUsers)),
        _ => (s, EffectView::Nothing),
    }
}

/// Adding a contact whose name is already in the list changes nothing and
/// sends nothing.
pub proof fn lemma_duplicate_add_sends_nothing(s: StateView)
    requires
        name_taken(s.contacts, s.name),
    ensures
        state_next(s, MessageView::AddUser) == (s, EffectView::Nothing),
{
}

/// The client's answer to an event: its next state and the effect.
pub open spec fn app_next(a: AppView, m: MessageView) -> (AppView, EffectView) {
    match a {
        AppView::Loaded(s) => {
            let (s2, e) = state_next(s, m);
            (AppView::Loaded(s2), e)
        },
        AppView::Loading { from_ip, from_port, ip, port, err } => match m {
            MessageView::InputChanged(t) => (
                AppView::Loading { from_ip: t, from_port, ip, port, err: Seq::empty() },
                EffectView::Nothing,
            ),
            MessageView::InputChanged2(t) => (
                AppView::Loading { from_ip, from_port: t, ip, port, err: Seq::empty() },
                EffectView::Nothing,
            ),
            MessageView::InputChanged3(t) => (
                AppView::Loading { from_ip, from_port, ip: t, port, err: Seq::empty() },
                EffectView::Nothing,
            ),
            MessageView::InputChanged4(t) => (
                AppView::Loading { from_ip, from_port, ip, port: t, err: Seq::empty() },
                EffectView::Nothing,
            ),
            MessageView::Continue => (a, EffectView::Connect { from_ip, from_port, ip, port }),
            _ => (a, EffectView::Nothing),
        },
    }
}

/// The contact list that a full refresh installs: every pair, in order,
/// idle and marked correct.
pub open spec fn refreshed_contacts(pairs: Seq<(Seq<char>, Seq<char>)>) -> Seq<ContactView> {
    pairs.map_values(|p: (Seq<char>, Seq<char>)| fresh_contact(p.0, p.1))
}

/// What a full refresh does with the reply it got: an `AllUsers` reply
/// replaces the list, anything else is an error and leaves it alone.
pub open spec fn reconcile_spec(s: StateView, reply: Result<ResponseView, WireError>) -> (
    StateView,
    Result<(), SyncError>,
) {
    match reply {
        Ok(ResponseView::AllUsers(pairs)) => (
            StateView { contacts: refreshed_contacts(pairs), ..s },
            Ok(()),
        ),
        Ok(_) => (s, Err(SyncError::UnexpectedResponse)),
        Err(_) => (s, Err(SyncError::MalformedMessage)),
    }
}

pub open spec fn reply_view(reply: Result<Response, WireError>) -> Result<ResponseView, WireError> {
    match reply {
        Ok(r) => Ok(r@),
        Err(e) => Err(e),
    }
}

impl State {
    /// A freshly connected client: no contacts, empty form.
    pub fn new() -> (s: State)
        ensures
            s@ == (StateView { contacts: Seq::empty(), name: Seq::empty(), number: Seq::empty() }),
    {
        let s = State { contacts: Vec::new(), name_value: String::new(), number_value: String::new() };
        assert(s@.contacts =~= Seq::empty());
        s
    }

    /// Whether the name in the form already belongs to a contact of the list.
    pub fn name_taken(&self) -> (r: bool)
        ensures
            r == name_taken(self@.contacts, self@.name),
    {
        let mut k: usize = 0;
        while k < self.contacts.len()
            invariant
                k <= self.contacts@.len(),
                forall|j: int| 0 <= j < k ==> (#[trigger] self@.contacts[j]).name != self@.name,
            decreases self.contacts@.len() - k,
        {
            if self.contacts[k].name == self.name_value {
                assert(self@.contacts[k as int].name == self@.name);
                return true;
            }
            k = k + 1;
        }
        false
    }

    /// Whether the form may be submitted: a name and a valid number.
    pub fn can_add(&self) -> (r: bool)
        ensures
            r == (self@.name.len() > 0 && number_ok(self@.number)),
    {
        !self.name_value.as_str().is_empty() && is_valid_number(self.number_value.as_str())
    }

    /// Applies one event to the connected client and says what to do next.
    /// A name already in the list is refused before anything is sent; a new
    /// contact is taken from the form before the form is cleared; a committed
    /// edit is sent to the store.
    pub fn update(&mut self, message: Message) -> (e: Effect)
        ensures
            (final(self)@, e@) == state_next(old(self)@, message@),
    {
        match message {
            Message::InputChanged(t) => {
                self.name_value = t;
                Effect::Nothing
            },
            Message::InputChanged2(t) => {
                self.number_value = t;
                Effect::Nothing
            },
            Message::AddUser => {
                if self.name_taken() {
                    return Effect::Nothing;
                }
                let name = self.name_value.clone();
                let number = self.number_value.clone();
                self.name_value = String::new();
                self.number_value = String::new();
                let ghost before = self.contacts@;
                self.contacts.push(Contact::new(name.clone(), number.clone()));
                assert(contacts_view(self.contacts@) =~= contacts_view(before).push(
                    fresh_contact(name@, number@),
                ));
                Effect::Send(Instruction::AddPhoneNumber { key: name, number })
            },
            Message::ContactMessage(i, cm) => {
                if i >= self.contacts.len() {
                    return Effect::Nothing;
                }
                let ghost before = self.contacts@;
                let mut c = self.contacts.remove(i);
                assert(contacts_view(self.contacts@) =~= contacts_view(before).remove(i as int));
                match cm {
                    ContactMessage::Delete => Effect::Send(Instruction::DeleteUser { key: c.name }),
                    _ => {
                        let ghost old_c = c@;
                        let committed = c.update(cm);
                        let e = if committed {
                            Effect::Send(
                                Instruction::EditNumber { key: c.name.clone(), number: c.number.clone() },
                            )
                        } else {
                            Effect::Nothing
                        };
                        self.contacts.insert(i, c);
                        assert(contacts_view(self.contacts@) =~= contacts_view(before).update(
                            i as int,
                            next_contact(old_c, cm@),
                        ));
                        e
                    },
                }
            },
            Message::GetAllUsers => Effect::Fetch(Instruction::GetAllUsers),
            _ => Effect::Nothing,
        }
    }

    /// Applies the reply to a full refresh: an `AllUsers` reply replaces the
    /// whole list by its pairs, each an idle contact marked correct; any other
    /// reply, or a payload that did not decode, is reported and changes nothing.
    pub fn reconcile(&mut self, reply: Result<Response, WireError>) -> (r: Result<(), SyncError>)
        ensures
            (final(self)@, r) == reconcile_spec(old(self)@, reply_view(reply)),
    {
        match reply {
            Ok(Response::AllUsers(pairs)) => {
                let ghost pv = pairs@.map_values(|p: (String, String)| pair_view(p));
                let mut contacts: Vec<Contact> = Vec::new();
                let mut k: usize = 0;
                while k < pairs.len()
                    invariant
                        k <= pairs@.len(),
                        pv == pairs@.map_values(|p: (String, String)| pair_view(p)),
                        contacts_view(contacts@) =~= refreshed_contacts(pv).take(k as int),
                    decreases pairs@.len() - k,
                {
                    let ghost before = contacts@;
                    let c = Contact::new(pairs[k].0.clone(), pairs[k].1.clone());
                    contacts.push(c);
                    assert(pv[k as int] == pair_view(pairs@[k as int]));
                    assert(contacts_view(contacts@) =~= contacts_view(before).push(c@));
                    k = k + 1;
                }
                assert(refreshed_contacts(pv).take(k as int) =~= refreshed_contacts(pv));
                self.contacts = contacts;
                Ok(())
            },
            Ok(_) => Err(SyncError::UnexpectedResponse),
            Err(_) => Err(SyncError::MalformedMessage),
        }
    }
}

impl App {
    /// The client at start: every address field empty, no error.
    pub fn new() -> (a: App)
        ensures
            a@ == (AppView::Loading {
                from_ip: Seq::empty(),
                from_port: Seq::empty(),
                ip: Seq::empty(),
                port: Seq::empty(),
                err: Seq::empty(),
            }),
    {
        App::Loading {
            from_ip_value: String::new(),
            from_port_value: String::new(),
            ip_value: String::new(),
            port_value: String::new(),
            err: String::new(),
        }
    }

    /// The window title.
    pub fn title(&self) -> (r: String)
        ensures
            r@ == "Phone numbers"@,
    {
        "Phone numbers".to_owned()
    }

    /// Applies one event and says what the caller must do next.
    pub fn update(&mut self, message: Message) -> (e: Effect)
        ensures
            (final(self)@, e@) == app_next(old(self)@, message@),
    {
        match self {
            App::Loaded(state) => state.update(message),
            App::Loading { from_ip_value, from_port_value, ip_value, port_value, err } => {
                match message {
                    Message::InputChanged(t) => {
                        *from_ip_value = t;
                        *err = String::new();
                        Effect::Nothing
                    },
                    Message::InputChanged2(t) => {
                        *from_port_value = t;
                        *err = String::new();
                        Effect::Nothing
                    },
                    Message::InputChanged3(t) => {
                        *ip_value = t;
                        *err = String::new();
                        Effect::Nothing
                    },
                    Message::InputChanged4(t) => {
                        *port_value = t;
                        *err = String::new();
                        Effect::Nothing
                    },
                    Message::Continue => Effect::Connect {
                        from_ip: from_ip_value.clone(),
                        from_port: from_port_value.clone(),
                        ip: ip_value.clone(),
                        port: port_value.clone(),
                    },
                    _ => Effect::Nothing,
                }
            },
        }
    }

    /// Records why binding or connecting failed; the client keeps collecting
    /// addresses.
    pub fn connection_failed(&mut self, message: String)
        ensures
            match old(self)@ {
                AppView::Loading { from_ip, from_port, ip, port, err } => final(self)@
                    == (AppView::Loading { from_ip, from_port, ip, port, err: message@ }),
                AppView::Loaded(_) => final(self)@ == old(self)@,
            },
    {
        if let App::Loading { err, .. } = self {
            *err = message;
        }
    }

    /// The socket is bound and connected: the client starts with an empty list.
    pub fn connected(&mut self)
        ensures
            match old(self)@ {
                AppView::Loading { .. } => final(self)@ == AppView::Loaded(
                    StateView { contacts: Seq::empty(), name: Seq::empty(), number: Seq::empty() },
                ),
                AppView::Loaded(_) => final(self)@ == old(self)@,
            },
    {
        if let App::Loading { .. } = self {
            *self = App::Loaded(State::new());
        }
    }
}

} // verus!
