//! Finds the one media reference that a message is resolved through.

use vstd::prelude::*;
use crate::classify::{classify_url, direct_media, is_direct_media, url_strategy, Strategy};
use crate::grammar::{first_link, leftmost_link, matches_twitter_link, short_link};
use crate::text::{contains, has_infix, opt_view};

verus! {

/// A file attached to a message.
pub struct Attachment {
    pub url: String,
    /// The content type that the platform declared for the file, if any.
    pub content_type: Option<String>,
}

/// An embed of a message; only its link matters here.
pub struct Embed {
    pub url: Option<String>,
}

/// What the pipeline reads of an inbound message.
pub struct InboundMessage {
    pub content: String,
    pub attachments: Vec<Attachment>,
    pub embeds: Vec<Embed>,
}

/// Where in a message a reference was found.
#[derive(Clone, Copy, Debug, PartialEq, Eq, Structural)]
pub enum SourceKind {
    Attachment,
    EmbedUrl,
    InlineUrl,
}

/// The media a message is resolved through, with the strategy chosen for it.
pub struct MediaReference {
    pub source: SourceKind,
    pub url: String,
    pub declared_type: Option<String>,
    pub strategy: Strategy,
}

pub struct ReferenceView {
    pub source: SourceKind,
    pub url: Seq<char>,
    pub declared_type: Option<Seq<char>>,
    pub strategy: Strategy,
}

impl View for MediaReference {
    type V = ReferenceView;

    open spec fn view(&self) -> ReferenceView {
        ReferenceView {
            source: self.source,
            url: self.url@,
            declared_type: opt_view(self.declared_type),
            strategy: self.strategy,
        }
    }
}

/// A declared content type names audio or video.
pub open spec fn is_media_type(t: Seq<char>) -> bool {
    has_infix(t, "video"@) || has_infix(t, "audio"@)
}

/// The attachment qualifies: it declares a media content type.
pub open spec fn qualifies(a: Attachment) -> bool {
    match a.content_type {
        Some(t) => is_media_type(t@),
        None => false,
    }
}

/// The first qualifying attachment at index `i` or later.
pub open spec fn attachment_pick(atts: Seq<Attachment>, i: int) -> Option<ReferenceView>
    decreases atts.len() - i,
{
    if i < 0 || i >= atts.len() {
        None
    } else if qualifies(atts[i]) {
        Some(
            ReferenceView {
                source: SourceKind::Attachment,
                url: atts[i].url@,
                declared_type: opt_view(atts[i].content_type),
                strategy: Strategy::DirectDownload,
            },
        )
    } else {
        attachment_pick(atts, i + 1)
    }
}

/// The first embed link at index `i` or later that is direct media or a
/// platform link, with that strategy.
pub open spec fn embed_pick(embeds: Seq<Embed>, i: int) -> Option<ReferenceView>
    decreases embeds.len() - i,
{
    if i < 0 || i >= embeds.len() {
        None
    } else {
        match embeds[i].url {
            Some(u) if direct_media(u@) || short_link(u@) => Some(
                ReferenceView {
                    source: SourceKind::EmbedUrl,
                    url: u@,
                    declared_type: None,
                    strategy: url_strategy(u@),
                },
            ),
            _ => embed_pick(embeds, i + 1),
        }
    }
}

/// The leftmost link of a text, with whatever strategy it classifies to.
pub open spec fn inline_pick(text: Seq<char>) -> Option<ReferenceView> {
    match leftmost_link(text) {
        Some(u) => Some(
            ReferenceView {
                source: SourceKind::InlineUrl,
                url: u,
                declared_type: None,
                strategy: url_strategy(u),
            },
        ),
        None => None,
    }
}

/// The reference of a message: attachments first, then embeds, then the text.
pub open spec fn message_reference(m: InboundMessage) -> Option<ReferenceView> {
    match attachment_pick(m.attachments@, 0) {
        Some(r) => Some(r),
        None => match embed_pick(m.embeds@, 0) {
            Some(r) => Some(r),
            None => inline_pick(m.content@),
        },
    }
}

fn pick_attachment(atts: &Vec<Attachment>) -> (r: Option<MediaReference>)
    ensures
        match r {
            Some(x) => attachment_pick(atts@, 0) == Some(x@),
            None => attachment_pick(atts@, 0) is None,
        },
{
    let mut i: usize = 0;
    while i < atts.len()
        invariant
            i <= atts@.len(),
            attachment_pick(atts@, 0) == attachment_pick(atts@, i as int),
        decreases atts@.len() - i,
    {
        let a = &atts[i];
        if let Some(t) = &a.content_type {
            if contains(t.as_str(), "video") || contains(t.as_str(), "audio") {
                return Some(
                    MediaReference {
                        source: SourceKind::Attachment,
                        url: a.url.clone(),
                        declared_type: Some(t.clone()),
                        strategy: Strategy::DirectDownload,
                    },
                );
            }
        }
        i = i + 1;
    }
    None
}

fn pick_embed(embeds: &Vec<Embed>) -> (r: Option<MediaReference>)
    ensures
        match r {
            Some(x) => embed_pick(embeds@, 0) == Some(x@),
            None => embed_pick(embeds@, 0) is None,
        },
{
    let mut i: usize = 0;
    while i < embeds.len()
        invariant
            i <= embeds@.len(),
            embed_pick(embeds@, 0) == embed_pick(embeds@, i as int),
        decreases embeds@.len() - i,
    {
        if let Some(u) = &embeds[i].url {
            let strategy = if is_direct_media(u.as_str()) {
                Strategy::DirectDownload
            } else if matches_twitter_link(u.as_str()) {
                Strategy::PlatformExtractor
            } else {
                Strategy::GenericExtractor
            };
            if strategy != Strategy::GenericExtractor {
                return Some(
                    MediaReference {
                        source: SourceKind::EmbedUrl,
                        url: u.clone(),
                        declared_type: None,
                        strategy,
                    },
                );
            }
        }
        i = i + 1;
    }
    None
}

fn pick_inline(text: &String) -> (r: Option<MediaReference>)
    ensures
        match r {
            Some(x) => inline_pick(text@) == Some(x@),
            None => inline_pick(text@) is None,
        },
{
    match first_link(text.as_str()) {
        Some(url) => {
            let strategy = classify_url(url.as_str());
            Some(MediaReference { source: SourceKind::InlineUrl, url, declared_type: None, strategy })
        },
        None => None,
    }
}

/// The one reference a message is resolved through, or none, in which case
/// nothing is sent to the backend and nothing is replied.
pub fn extract_reference(msg: &InboundMessage) -> (r: Option<MediaReference>)
    ensures
        match r {
            Some(x) => message_reference(*msg) == Some(x@),
            None => message_reference(*msg) is None,
        },
{
    match pick_attachment(&msg.attachments) {
        Some(x) => Some(x),
        None => match pick_embed(&msg.embeds) {
            Some(x) => Some(x),
            None => pick_inline(&msg.content),
        },
    }
}

} // verus!
