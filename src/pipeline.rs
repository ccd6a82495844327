//! The decisions of the per-message pipeline. The caller performs what they
//! ask for: it shows the processing indicator, calls the backend at the
//! planned path, and delivers the finished reply.

use vstd::prelude::*;
use crate::backend::{normalize, outcome, BackendReply, Envelope};
use crate::compose::{compose_reply, compose_reply_random, reply_for, DeliveryMode, Reply, LEAD_IN_COUNT};
use crate::dispatch::{backend_path, request_path};
use crate::extract::{
    attachment_pick, extract_reference, message_reference, qualifies, InboundMessage,
    MediaReference, SourceKind,
};
use crate::classify::direct_media;
use crate::grammar::short_link;

verus! {

/// The one backend call a message needs.
pub struct Request {
    pub reference: MediaReference,
    /// The backend path, after its base address.
    pub path: String,
    /// Whether to show the processing indicator while the call is out.
    pub show_typing: bool,
}

/// A channel message is considered when it is not from a bot and has text or
/// an attachment.
pub fn accepts_channel_message(msg: &InboundMessage, from_bot: bool) -> (r: bool)
    ensures
        r == (!from_bot && (msg.content@.len() > 0 || msg.attachments@.len() > 0)),
{
    !from_bot && (!msg.content.as_str().is_empty() || msg.attachments.len() > 0)
}

/// Plans the backend call for a message, or none: then the message is passed
/// over, with no backend call and no reply. The indicator is shown for
/// channel messages only.
pub fn plan_request(msg: &InboundMessage, mode: DeliveryMode) -> (r: Option<Request>)
    ensures
        match r {
            Some(q) => {
                &&& message_reference(*msg) == Some(q.reference@)
                &&& q.path@ == request_path(q.reference@)
                &&& q.show_typing == (mode == DeliveryMode::Channel)
            },
            None => message_reference(*msg) is None,
        },
{
    match extract_reference(msg) {
        Some(reference) => {
            let path = backend_path(&reference);
            Some(Request { reference, path, show_typing: mode == DeliveryMode::Channel })
        },
        None => None,
    }
}

/// The reply to a backend reply, with the lead-in phrase of index `lead`.
pub fn finish(reply: BackendReply, lead: usize, mode: DeliveryMode) -> (r: Reply)
    requires
        lead < LEAD_IN_COUNT,
    ensures
        r@ == reply_for(outcome(reply), lead as int, mode),
{
    let result = normalize(reply);
    compose_reply(&result, lead, mode)
}

/// The reply to a backend reply, with a lead-in phrase drawn at random.
pub fn respond(reply: BackendReply, mode: DeliveryMode) -> (r: Reply)
    ensures
        exists|i: int| 0 <= i < LEAD_IN_COUNT && r@ == reply_for(outcome(reply), i, mode),
{
    let result = normalize(reply);
    compose_reply_random(&result, mode)
}

/// A message with no attachments, no embeds and no text resolves to no
/// reference: it is passed over without a backend call.
pub proof fn empty_message_is_passed_over(msg: InboundMessage)
    requires
        msg.attachments@.len() == 0,
        msg.embeds@.len() == 0,
        msg.content@.len() == 0,
    ensures
        message_reference(msg) is None,
{
}

proof fn qualifying_attachment_is_picked(msg: InboundMessage, k: int, i: int)
    requires
        0 <= i <= k < msg.attachments@.len(),
        qualifies(msg.attachments@[k]),
    ensures
        attachment_pick(msg.attachments@, i) is Some,
        attachment_pick(msg.attachments@, i)->0.source == SourceKind::Attachment,
    decreases k - i,
{
    if i < k && !qualifies(msg.attachments@[i]) {
        qualifying_attachment_is_picked(msg, k, i + 1);
    }
}

/// When a message has an attachment with a media content type, it resolves
/// through an attachment, whatever its embeds hold.
pub proof fn attachment_takes_precedence(msg: InboundMessage, k: int, e: int)
    requires
        0 <= k < msg.attachments@.len(),
        qualifies(msg.attachments@[k]),
        0 <= e < msg.embeds@.len(),
        match msg.embeds@[e].url {
            Some(u) => direct_media(u@) || short_link(u@),
            None => false,
        },
    ensures
        message_reference(msg) is Some,
        message_reference(msg)->0.source == SourceKind::Attachment,
{
    qualifying_attachment_is_picked(msg, k, 0);
}

/// A found track whose canonical link is empty gets a reply without a link,
/// still titled with the track's title and subtitle.
pub proof fn empty_track_link_is_omitted(envelope: Envelope, lead: int, mode: DeliveryMode)
    requires
        envelope.track is Some,
        envelope.track->0.url@.len() == 0,
    ensures
        ({
            let r = reply_for(
                outcome(BackendReply::Answered { success: true, envelope: Some(envelope) }),
                lead,
                mode,
            );
            &&& r.card.url is None
            &&& r.card.title == envelope.track->0.title@
            &&& r.card.description == envelope.track->0.subtitle@
        }),
{
}

} // verus!
