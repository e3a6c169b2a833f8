//! Election client library: the vote records that a polling station fills
//! in, the rules that check the station's SSH key, the text handling of the
//! counts that the operator types in, and the paths used to fetch the vote
//! template from the pre-server.

pub mod datatypes;
pub mod text;
pub mod ssh_key;
pub mod layout;
pub mod json_field;
pub mod paths;
pub mod pre_server;
