use vstd::prelude::*;

verus! {

/// The failure taxonomy of the extraction pipeline.
///
/// Transport and business failures at a fallback tier are caught locally and
/// turned into "advance to the next tier"; only the last tier's error reaches
/// the caller when every tier has failed.
#[derive(Debug, Clone, PartialEq, Eq)]
pub enum ParseError {
    /// No http/https URL candidate was found in the given free text.
    UrlNotFound,
    /// No platform in the domain table matches the URL.
    UnknownPlatform,
    /// The platform tag has no registered extraction strategy at all.
    UnsupportedPlatform,
    /// The strategy exists but does not implement the requested operation.
    UnsupportedOperation,
    /// A share URL whose shape the strategy does not recognise (no id in it).
    InvalidShareUrl,
    /// The network call itself failed (timeout, connection, bad status).
    UpstreamTransportError(String),
    /// The upstream API answered but signalled rejection or removal,
    /// carrying the platform's own message.
    UpstreamBusinessError(String),
    /// A redirect probe returned no `Location` header.
    RedirectMissing,
    /// The embedded-state anchors did not match the fetched HTML.
    EmbeddedDataNotFound,
    /// The text between the anchors is not valid JSON even after
    /// `undefined`-sanitization.
    MalformedEmbeddedJson,
    /// The upstream payload parsed, but the fields the strategy needs are
    /// absent or of the wrong shape.
    MalformedUpstreamPayload,
    /// Extraction succeeded structurally but yielded neither a video URL nor
    /// a non-empty image gallery.
    NoMediaFound,
}

impl ParseError {
    /// A human-readable message for the transport layer's error envelope.
    pub fn message(&self) -> (r: String)
        ensures
            self matches ParseError::UpstreamBusinessError(m) ==> r@ == m@,
    {
        match self {
            ParseError::UrlNotFound => String::from_str("no URL found in the given text"),
            ParseError::UnknownPlatform => String::from_str("unrecognised video platform"),
            ParseError::UnsupportedPlatform => String::from_str("platform has no parser"),
            ParseError::UnsupportedOperation => String::from_str(
                "platform does not support parsing by video id",
            ),
            ParseError::InvalidShareUrl => String::from_str("no video id in the share URL"),
            ParseError::UpstreamTransportError(m) => {
                let mut s = String::from_str("upstream request failed: ");
                s.append(m.as_str());
                s
            },
            ParseError::UpstreamBusinessError(m) => m.clone(),
            ParseError::RedirectMissing => String::from_str("no redirect location returned"),
            ParseError::EmbeddedDataNotFound => String::from_str(
                "embedded data not found in the HTML",
            ),
            ParseError::MalformedEmbeddedJson => String::from_str("embedded data is not valid JSON"),
            ParseError::MalformedUpstreamPayload => String::from_str("unexpected upstream payload"),
            ParseError::NoMediaFound => String::from_str("no video or image content found"),
        }
    }
}

} // verus!
