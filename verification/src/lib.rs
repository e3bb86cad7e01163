use vstd::prelude::*;

pub mod text;
pub mod preview;
pub mod space;
pub mod diff;
pub mod matrix;
pub mod rooms;
pub mod summary;
pub mod session;
pub mod ui;
pub mod settings;
pub mod emoji;
pub mod rich_text;
pub mod composer;
pub mod urls;
pub mod engine;

verus! {

/// Steps of the QR-code login flow.
#[derive(Debug, Clone, Copy, PartialEq, Eq, Structural)]
pub enum QrLoginStep {
    NotStarted,
    Initiating,
    ShowingQr,
    RendezvousEstablished,
    Authenticating,
    Success,
    Error,
}

} // verus!
