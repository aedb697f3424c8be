mod client_action;
mod client_padding;
mod client_state;
mod client_type;
mod clients;
mod event_context;
mod requests;
mod screen;
mod spawn;

pub use client_action::ClientAction;
pub use client_padding::ClientPadding;
pub use client_state::ClientState;
pub use client_type::ClientType;
pub use clients::Client;
pub use clients::ClientID;
pub use clients::ClientView;
pub use clients::allowed_with;
pub use clients::effective_state_of;
pub use clients::lemma_tile_never_stored;
pub use clients::pushed_states;
pub use clients::with_actions;
pub use clients::with_states;
pub use event_context::EventContext;
pub use event_context::LockError;
pub use screen::Screen;
pub use screen::TagID;
pub use spawn::SpawnCommand;
pub use spawn::SpawnError;
pub use spawn::command_tokens;
pub use spawn::complete_spawn;
pub use spawn::is_command_space;
pub use spawn::leading_token_len;
pub use spawn::lemma_all_space_no_tokens;
pub use spawn::lemma_tokens_are_separator_free;
pub use spawn::parse_command;
pub use spawn::split_command_line;
pub use spawn::split_tokens;
