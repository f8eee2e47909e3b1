//! Streaming playback core: a chunked byte buffer fed by a downloader, a
//! seekable reader over it, the download lifecycle, the player's source
//! lifecycle and event rules, and decoder construction settings.

mod cancel;
pub mod chunks;
mod codec;
pub mod decoder;
pub mod downloader;
pub mod events;
pub mod mvec_bytes;
pub mod mvec_u8;
pub mod player;
pub mod reader;
