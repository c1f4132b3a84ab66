use vstd::prelude::*;

use crate::errors::Error;

verus! {

/// What a piece of offered clipboard data is intended for.
#[derive(Clone, Copy, PartialEq, Eq, Structural, Debug)]
pub enum ClipboardUsage {
    /// Pastable data.
    Content,
    /// Text description of the pastable data.
    Description,
    /// Small graphical representation of the pastable data.
    Thumbnail,
    /// Printing preview image of the pastable data.
    PrintedPreview,
    /// Iconic representation of the pastable data.
    Icon,
    /// Pastable data through the primary selection mechanism.
    PrimarySelection,
    /// Pastable data through the secondary selection mechanism.
    SecondarySelection,
}

/// Describes one clipboard format a client offers or observes.
#[derive(Clone, Debug)]
pub struct ClipboardDescription {
    /// MIME type.
    pub format: String,
    /// What the provided data is intended for.
    pub usage: ClipboardUsage,
}

/// One offered clipboard entry.
#[derive(Clone, Debug)]
pub struct ClipboardOffer {
    pub description: ClipboardDescription,
    /// When true, the data may be converted to, or published under,
    /// synonymous native formats.
    pub allow_convert: bool,
}

/// The descriptions another client currently offers.
#[derive(Clone, Debug)]
pub struct ClipboardOfferEvent {
    pub offers: Vec<ClipboardDescription>,
}

/// What a clipboard-capable shell client offers. Data transfer itself is an
/// external collaborator's concern.
pub trait ClipboardController {
    /// True when the platform supports the usage at all.
    fn allows_clipboard_usage(&self, usage: ClipboardUsage) -> bool;

    /// Publishes the given offers.
    fn offer_clipboard(&self, offers: &[ClipboardOffer]) -> Result<(), Error>;

    /// Asks for the offers currently published by another client.
    fn request_clipboard(&self) -> Result<(), Error>;
}

} // verus!
