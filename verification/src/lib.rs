//! Decision logic of a remote control for MPRIS media players: typed reading
//! of the player's metadata, rendering of tracks as prose, and the resolution
//! of a play request into one playable identifier.

pub mod bus;
pub mod command;
pub mod controller;
pub mod metadata;
pub mod resolver;
pub mod text;
pub mod track;

pub use command::{dispatch, Command, Task};
pub use controller::{Action, RemoteCall};
pub use metadata::{Metadata, MetadataError, PropertyMap, PropertyValue};
pub use resolver::{PlayRequest, ResolveError, SelectionMode, Step};
pub use text::join;
pub use track::{format_artists, Album, Artist, Track};
