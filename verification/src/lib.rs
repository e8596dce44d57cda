//! Asset resolution and image processing for a small game launcher.
//!
//! The crate turns bundled byte blobs, addressed by a logical key, into
//! rendering-ready values: it sniffs the media kind from the content, decodes
//! raster images into RGBA8 buffers, cuts rounded corners into icons, and
//! decides which resolved background may be presented. It never draws and
//! never touches the file system; a shell around it does both.
//!
//! Every function is verified against its contract, with three exceptions
//! that call outside crates and are believed: the content sniffer in
//! `sniff` (crate `file_format`), and the raster decoder and the resampler in
//! `decode` (crate `image`). What the sniffer and the decoder return is named
//! by an uninterpreted function of the bytes; of the resampler only the
//! dimensions are stated.

pub mod assets;
pub mod decode;
pub mod game;
pub mod launcher;
pub mod mask;
pub mod policy;
pub mod raster;
pub mod resolve;
pub mod sniff;
pub mod state;
pub mod video;
