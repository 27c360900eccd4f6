//! Decision logic of a Telegram bot that books "work from home" days in a
//! shared calendar: user records, the dialogs a user goes through, the
//! events and form bodies they produce, and the persisted state.

pub mod basic_structures;
pub mod events_sender;
pub mod message_processor;
pub mod post_to_form;
pub mod save_load_state;
pub mod text;
pub mod user_data;
