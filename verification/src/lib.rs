//! The rules of a Qobuz Connect command-line client: the queue and renderer
//! model, the playback state machine, the payloads that go over the wire and
//! the decisions behind each command.

pub mod app_logic;
pub mod app_types;
pub mod atoms;
pub mod channels;
pub mod clock;
pub mod commands;
pub mod credentials;
pub mod device;
pub mod eio;
pub mod encoding;
pub mod ids;
pub mod json;
pub mod media;
pub mod mpris;
pub mod notices;
pub mod oauth;
pub mod octets;
pub mod playback;
pub mod player;
pub mod printer;
pub mod protocol;
pub mod quality;
pub mod queue;
pub mod readable;
pub mod session;
pub mod shared_state;
pub mod sink;
pub mod text;
