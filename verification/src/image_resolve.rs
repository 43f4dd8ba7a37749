//! Resolving `@path` image attachments: what to do with each file once its
//! bytes are classified, and the message shown when resolution fails.
use vstd::prelude::*;
use vstd::string::*;

verus! {

/// Resolving an image attachment failed.
#[derive(Debug, Clone, Copy, PartialEq, Eq, Structural)]
pub struct ImageResolveError;

/// What a file's bytes are, as far as attaching goes.
#[derive(Debug, Clone)]
pub enum ImageKind {
    /// A format the model accepts as is, with its media type.
    Native { media_type: String },
    /// An image in another format; it is converted to PNG first.
    NeedsConversion,
    /// Not an image.
    NotAnImage,
}

/// What becomes of one file.
#[derive(Debug, Clone)]
pub enum AttachmentPlan {
    /// Attach the bytes read, with this media type.
    AttachAsRead { media_type: String },
    /// Convert the file to PNG and attach the result as `image/png`.
    ConvertToPng,
    /// Fail the whole resolution, with this reason.
    Reject { reason: String },
}

/// The plan for a file of kind `kind`.
pub fn plan_attachment(kind: ImageKind) -> (p: AttachmentPlan)
    ensures
        match kind {
            ImageKind::Native { media_type } => p == (AttachmentPlan::AttachAsRead { media_type }),
            ImageKind::NeedsConversion => p == AttachmentPlan::ConvertToPng,
            ImageKind::NotAnImage => p matches AttachmentPlan::Reject { reason } && reason@
                == "file is not a recognized image format"@,
        },
{
    match kind {
        ImageKind::Native { media_type } => AttachmentPlan::AttachAsRead { media_type },
        ImageKind::NeedsConversion => AttachmentPlan::ConvertToPng,
        ImageKind::NotAnImage => AttachmentPlan::Reject { reason: String::from_str("file is not a recognized image format") },
    }
}

/// The media type of a converted image.
pub fn converted_media_type() -> (m: &'static str)
    ensures
        m@ == "image/png"@,
{
    "image/png"
}

/// The chat message for a failed resolution, given the rendered error
/// report.
pub fn format_attachment_error(report: &str) -> (msg: String)
    ensures
        msg@ == "Could not attach image: "@ + report@,
{
    proof {
        reveal_strlit("Could not attach image: ");
    }
    let mut msg = String::from_str("Could not attach image: ");
    msg.append(report);
    msg
}

} // verus!
