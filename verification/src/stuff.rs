//! The plain player: a library read from one directory, playlists of bare
//! tracks and a transport that drives an output sink directly.

pub mod library;
pub mod player;
pub mod playlist;
