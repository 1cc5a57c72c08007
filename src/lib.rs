//! Contact book synchronised with a remote store over a datagram protocol:
//! phone number validation, the per-contact edit state machine, the wire
//! codec, the store engine and the client controller.

mod phone;
mod contact;
mod wire;
mod store;
mod client;

pub use phone::{is_valid_number, lemma_empty_is_invalid, number_ok, phone_valid};
pub use contact::{
    Contact, ContactMessage, ContactMessageView, ContactState, ContactView, fresh_contact,
    next_contact, finish_spec, lemma_edit_cycle,
};
pub use wire::{
    Instruction, InstructionView, MAX_PAYLOAD, Response, ResponseView, WireError, decode_instruction_spec,
    decode_response_spec, instruction_fields, json_array_of, json_array_parse,
    lemma_instruction_round_trip, lemma_response_round_trip, parse_instruction, parse_response,
    response_fields,
};
pub use store::{
    Query, QueryView, Store, failure_prefix, lemma_delete_is_idempotent, possible_response, query_for,
    outcome_view, query_spec, respond, response_spec,
};
pub use client::{
    App, AppView, Effect, EffectView, Message, MessageView, State, StateView, SyncError,
    app_next, commits, contacts_view, lemma_duplicate_add_sends_nothing, name_taken, reconcile_spec, refreshed_contacts, reply_view,
    state_next,
};
