//! Builds the reply for a match result: the card, its metadata fields, and
//! the provider links synthesised for a found track.

use vstd::prelude::*;
use crate::backend::{MatchResult, MetadataEntry, Provider, Section, Track};
use crate::dispatch::{url_encode, url_encoded};
use crate::text::{equals, has_prefix, opt_view, owned, starts_with};

verus! {

/// One compact `title: text` field of a card.
pub struct Field {
    pub title: String,
    pub text: String,
    pub inline: bool,
}

pub struct FieldView {
    pub title: Seq<char>,
    pub text: Seq<char>,
    pub inline: bool,
}

impl View for Field {
    type V = FieldView;

    open spec fn view(&self) -> FieldView {
        FieldView { title: self.title@, text: self.text@, inline: self.inline }
    }
}

/// A link-style button: label, destination and icon marker.
pub struct LinkButton {
    pub label: String,
    pub url: String,
    pub emoji: String,
}

pub struct ButtonView {
    pub label: Seq<char>,
    pub url: Seq<char>,
    pub emoji: Seq<char>,
}

impl View for LinkButton {
    type V = ButtonView;

    open spec fn view(&self) -> ButtonView {
        ButtonView { label: self.label@, url: self.url@, emoji: self.emoji@ }
    }
}

/// The field made of a metadata entry.
pub open spec fn entry_field(e: MetadataEntry) -> FieldView {
    FieldView { title: e.title@, text: e.text@, inline: true }
}

/// The fields of one section: one per metadata entry, none without metadata.
pub open spec fn section_fields(s: Section) -> Seq<FieldView> {
    match s.metadata {
        Some(v) => v@.map_values(|e: MetadataEntry| entry_field(e)),
        None => Seq::empty(),
    }
}

/// The fields of the first `n` sections, in order.
pub open spec fn fields_of(sections: Seq<Section>, n: int) -> Seq<FieldView>
    decreases n,
{
    if n <= 0 || n > sections.len() {
        Seq::empty()
    } else {
        fields_of(sections, n - 1) + section_fields(sections[n - 1])
    }
}

/// All metadata entries of all sections, in order, each as one compact field.
pub fn metadata_fields(sections: &Vec<Section>) -> (r: Vec<Field>)
    ensures
        r@.map_values(|f: Field| f@) == fields_of(sections@, sections@.len() as int),
{
    let mut out: Vec<Field> = Vec::new();
    let mut i: usize = 0;
    while i < sections.len()
        invariant
            i <= sections@.len(),
            out@.map_values(|f: Field| f@) == fields_of(sections@, i as int),
        decreases sections@.len() - i,
    {
        if let Some(entries) = &sections[i].metadata {
            let mut j: usize = 0;
            while j < entries.len()
                invariant
                    i < sections@.len(),
                    sections@[i as int].metadata == Some(*entries),
                    j <= entries@.len(),
                    out@.map_values(|f: Field| f@) == fields_of(sections@, i as int)
                        + section_fields(sections@[i as int]).take(j as int),
                decreases entries@.len() - j,
            {
                let e = &entries[j];
                let ghost before = out@;
                let f = Field { title: e.title.clone(), text: e.text.clone(), inline: true };
                assert(f@ == entry_field(entries@[j as int]));
                out.push(f);
                assert(out@.map_values(|f: Field| f@) =~= before.map_values(|f: Field| f@).push(
                    entry_field(entries@[j as int]),
                ));
                assert(section_fields(sections@[i as int]).take(j + 1) =~= section_fields(
                    sections@[i as int],
                ).take(j as int).push(entry_field(entries@[j as int])));
                assert(out@.map_values(|f: Field| f@) =~= fields_of(sections@, i as int)
                    + section_fields(sections@[i as int]).take(j + 1));
                j = j + 1;
            }
            assert(section_fields(sections@[i as int]).take(j as int) =~= section_fields(
                sections@[i as int],
            ));
        } else {
            assert(section_fields(sections@[i as int]) =~= Seq::empty());
        }
        assert(fields_of(sections@, i + 1) == fields_of(sections@, i as int) + section_fields(
            sections@[i as int],
        ));
        assert(out@.map_values(|f: Field| f@) =~= fields_of(sections@, i + 1));
        i = i + 1;
    }
    out
}

/// A provider with this type tag and at least one action.
pub open spec fn is_typed(p: Provider, tag: Seq<char>) -> bool {
    p.provider_type@ == tag && p.action_uris@.len() > 0
}

/// The first action URI of the last provider among the first `n` whose type
/// tag is `SPOTIFY` and which has an action.
pub open spec fn spotify_uri(ps: Seq<Provider>, n: int) -> Option<Seq<char>>
    decreases n,
{
    if n <= 0 || n > ps.len() {
        None
    } else if is_typed(ps[n - 1], "SPOTIFY"@) {
        Some(ps[n - 1].action_uris@[0]@)
    } else {
        spotify_uri(ps, n - 1)
    }
}

/// A `spotify:search:<query>` URI becomes the web search for the encoded
/// query; any other URI is kept.
pub open spec fn spotify_web_url(uri: Seq<char>) -> Seq<char> {
    let scheme = "spotify:search:"@;
    if has_prefix(uri, scheme) {
        "https://open.spotify.com/search/"@ + url_encoded(uri.subrange(scheme.len() as int, uri.len() as int))
    } else {
        uri
    }
}

/// An Apple Music option whose first action is a real track page, not the
/// generic subscription page that stands for "not on Apple Music".
pub open spec fn is_apple_track(p: Provider) -> bool {
    &&& opt_view(p.provider_name) == Some("applemusic"@)
    &&& p.action_uris@.len() > 0
    &&& !has_prefix(p.action_uris@[0]@, "https://music.apple.com/subscribe"@)
}

/// The first action URI of the last Apple Music track option among the first `n`.
pub open spec fn apple_uri(os: Seq<Provider>, n: int) -> Option<Seq<char>>
    decreases n,
{
    if n <= 0 || n > os.len() {
        None
    } else if is_apple_track(os[n - 1]) {
        Some(os[n - 1].action_uris@[0]@)
    } else {
        apple_uri(os, n - 1)
    }
}

/// Some provider is tagged `DEEZER`.
pub open spec fn lists_deezer(ps: Seq<Provider>) -> bool {
    exists|k: int| 0 <= k < ps.len() && (#[trigger] ps[k]).provider_type@ == "DEEZER"@
}

/// The encoded search query for a track: its title, a space, its subtitle.
pub open spec fn track_query(t: Track) -> Seq<char> {
    url_encoded(t.title@ + " "@ + t.subtitle@)
}

pub open spec fn button(label: Seq<char>, url: Seq<char>, emoji: Seq<char>) -> ButtonView {
    ButtonView { label, url, emoji }
}

pub open spec fn spotify_buttons(t: Track) -> Seq<ButtonView> {
    match spotify_uri(t.providers@, t.providers@.len() as int) {
        Some(u) => seq![button("Spotify"@, spotify_web_url(u), "<:Spotify:1014768475593506836>"@)],
        None => Seq::empty(),
    }
}

pub open spec fn apple_buttons(t: Track) -> Seq<ButtonView> {
    match apple_uri(t.options@, t.options@.len() as int) {
        Some(u) => seq![button("Apple Music"@, u, "<:Apple Music:1014769073277640765>"@)],
        None => Seq::empty(),
    }
}

pub open spec fn music_search_button(t: Track) -> ButtonView {
    button(
        "YouTube Music"@,
        "https://music.youtube.com/search?q="@ + track_query(t),
        "<:YouTube Music:1016942966012661762>"@,
    )
}

pub open spec fn deezer_buttons(t: Track) -> Seq<ButtonView> {
    if lists_deezer(t.providers@) {
        seq![button("Deezer"@, "https://www.deezer.com/search/"@ + track_query(t), "<:Deezer:1016912951355125812>"@)]
    } else {
        Seq::empty()
    }
}

/// The provider links of a track, in their fixed order: Spotify, Apple
/// Music, the music-streaming search, Deezer; a provider without data is left out.
pub open spec fn provider_buttons(t: Track) -> Seq<ButtonView> {
    spotify_buttons(t) + apple_buttons(t) + seq![music_search_button(t)] + deezer_buttons(t)
}

fn spotify_choice(ps: &Vec<Provider>) -> (r: Option<&String>)
    ensures
        match r {
            Some(u) => spotify_uri(ps@, ps@.len() as int) == Some(u@),
            None => spotify_uri(ps@, ps@.len() as int) is None,
        },
{
    let mut chosen: Option<&String> = None;
    let mut i: usize = 0;
    while i < ps.len()
        invariant
            i <= ps@.len(),
            match chosen {
                Some(u) => spotify_uri(ps@, i as int) == Some(u@),
                None => spotify_uri(ps@, i as int) is None,
            },
        decreases ps@.len() - i,
    {
        let p = &ps[i];
        if equals(p.provider_type.as_str(), "SPOTIFY") && p.action_uris.len() > 0 {
            chosen = Some(&p.action_uris[0]);
        }
        i = i + 1;
    }
    chosen
}

fn apple_choice(os: &Vec<Provider>) -> (r: Option<&String>)
    ensures
        match r {
            Some(u) => apple_uri(os@, os@.len() as int) == Some(u@),
            None => apple_uri(os@, os@.len() as int) is None,
        },
{
    let mut chosen: Option<&String> = None;
    let mut i: usize = 0;
    while i < os.len()
        invariant
            i <= os@.len(),
            match chosen {
                Some(u) => apple_uri(os@, i as int) == Some(u@),
                None => apple_uri(os@, i as int) is None,
            },
        decreases os@.len() - i,
    {
        let p = &os[i];
        if let Some(name) = &p.provider_name {
            if equals(name.as_str(), "applemusic") && p.action_uris.len() > 0 && !starts_with(
                p.action_uris[0].as_str(),
                "https://music.apple.com/subscribe",
            ) {
                chosen = Some(&p.action_uris[0]);
            }
        }
        i = i + 1;
    }
    chosen
}

fn has_deezer(ps: &Vec<Provider>) -> (r: bool)
    ensures
        r == lists_deezer(ps@),
{
    let mut i: usize = 0;
    while i < ps.len()
        invariant
            i <= ps@.len(),
            forall|k: int| 0 <= k < i ==> (#[trigger] ps@[k]).provider_type@ != "DEEZER"@,
        decreases ps@.len() - i,
    {
        if equals(ps[i].provider_type.as_str(), "DEEZER") {
            return true;
        }
        i = i + 1;
    }
    false
}

/// Rewrites a `spotify:search:<query>` URI into the web search for the
/// encoded query; any other URI is kept as it is.
pub fn spotify_web_link(uri: &str) -> (r: String)
    ensures
        r@ == spotify_web_url(uri@),
{
    let scheme = "spotify:search:";
    if starts_with(uri, scheme) {
        let n = uri.unicode_len();
        let query = uri.substring_char(scheme.unicode_len(), n);
        let enc = url_encode(query);
        owned("https://open.spotify.com/search/").concat(enc.as_str())
    } else {
        owned(uri)
    }
}

fn make_button(label: &str, url: String, emoji: &str) -> (r: LinkButton)
    ensures
        r@ == button(label@, url@, emoji@),
{
    LinkButton { label: owned(label), url, emoji: owned(emoji) }
}

/// The provider links of a found track, in their fixed order.
pub fn provider_links(t: &Track) -> (r: Vec<LinkButton>)
    ensures
        r@.map_values(|b: LinkButton| b@) == provider_buttons(*t),
{
    let mut out: Vec<LinkButton> = Vec::new();
    if let Some(u) = spotify_choice(&t.providers) {
        out.push(make_button("Spotify", spotify_web_link(u.as_str()), "<:Spotify:1014768475593506836>"));
    }
    if let Some(u) = apple_choice(&t.options) {
        out.push(make_button("Apple Music", u.clone(), "<:Apple Music:1014769073277640765>"));
    }
    assert(out@.map_values(|b: LinkButton| b@) =~= spotify_buttons(*t) + apple_buttons(*t));
    let query_text = t.title.clone().concat(" ").concat(t.subtitle.as_str());
    let query = url_encode(query_text.as_str());
    out.push(
        make_button(
            "YouTube Music",
            owned("https://music.youtube.com/search?q=").concat(query.as_str()),
            "<:YouTube Music:1016942966012661762>",
        ),
    );
    assert(out@.map_values(|b: LinkButton| b@) =~= spotify_buttons(*t) + apple_buttons(*t) + seq![
        music_search_button(*t),
    ]);
    if has_deezer(&t.providers) {
        out.push(
            make_button(
                "Deezer",
                owned("https://www.deezer.com/search/").concat(query.as_str()),
                "<:Deezer:1016912951355125812>",
            ),
        );
    }
    assert(out@.map_values(|b: LinkButton| b@) =~= provider_buttons(*t));
    out
}

/// The footer of a card.
pub struct Footer {
    pub text: String,
    pub icon_url: String,
}

/// The card of a reply: title, description, optional link, colour,
/// optional artwork and footer, and its fields.
pub struct Card {
    pub title: String,
    pub description: String,
    pub url: Option<String>,
    pub color: u32,
    pub thumbnail: Option<String>,
    pub footer: Option<Footer>,
    pub fields: Vec<Field>,
}

/// How a reply reaches the chat.
#[derive(Clone, Copy, Debug, PartialEq, Eq, Structural)]
pub enum Delivery {
    /// A follow-up to an acknowledged interactive command, seen by the requester alone.
    EphemeralFollowUp,
    /// A channel message posted as a reply to the message it answers.
    ThreadedReply,
}

/// Where the request came from.
#[derive(Clone, Copy, Debug, PartialEq, Eq, Structural)]
pub enum DeliveryMode {
    /// An interactive command run on a message.
    Interactive,
    /// A message posted in a channel.
    Channel,
}

/// The one reply a resolved message gets.
pub struct Reply {
    /// The lead-in phrase, for a found track only.
    pub content: Option<String>,
    pub card: Card,
    pub buttons: Vec<LinkButton>,
    pub delivery: Delivery,
}

pub struct CardView {
    pub title: Seq<char>,
    pub description: Seq<char>,
    pub url: Option<Seq<char>>,
    pub color: u32,
    pub thumbnail: Option<Seq<char>>,
    pub footer: Option<(Seq<char>, Seq<char>)>,
    pub fields: Seq<FieldView>,
}

pub struct ReplyView {
    pub content: Option<Seq<char>>,
    pub card: CardView,
    pub buttons: Seq<ButtonView>,
    pub delivery: Delivery,
}

impl View for Card {
    type V = CardView;

    open spec fn view(&self) -> CardView {
        CardView {
            title: self.title@,
            description: self.description@,
            url: opt_view(self.url),
            color: self.color,
            thumbnail: opt_view(self.thumbnail),
            footer: match self.footer {
                Some(f) => Some((f.text@, f.icon_url@)),
                None => None,
            },
            fields: self.fields@.map_values(|f: Field| f@),
        }
    }
}

impl View for Reply {
    type V = ReplyView;

    open spec fn view(&self) -> ReplyView {
        ReplyView {
            content: opt_view(self.content),
            card: self.card@,
            buttons: self.buttons@.map_values(|b: LinkButton| b@),
            delivery: self.delivery,
        }
    }
}

/// Card colour of a found track.
pub const FOUND_COLOR: u32 = 0x3498DB;

/// Card colour of a search that found nothing.
pub const NO_MATCH_COLOR: u32 = 0xE67E22;

/// Card colour of a failure.
pub const FAILURE_COLOR: u32 = 0xE74C3C;

/// How many lead-in phrases there are to choose from.
pub const LEAD_IN_COUNT: usize = 6;

/// The lead-in phrase of index `i`.
pub open spec fn lead_in_phrase(i: int) -> Seq<char> {
    if i == 0 {
        "I found it!"@
    } else if i == 1 {
        "This might be the song you're looking for."@
    } else if i == 2 {
        "I hope this helps."@
    } else if i == 3 {
        "Hey, I love this song too."@
    } else if i == 4 {
        "I like your taste."@
    } else {
        "I was wondering about this song too."@
    }
}

/// The lead-in phrase of index `i`.
pub fn lead_in(i: usize) -> (r: String)
    requires
        i < LEAD_IN_COUNT,
    ensures
        r@ == lead_in_phrase(i as int),
{
    if i == 0 {
        owned("I found it!")
    } else if i == 1 {
        owned("This might be the song you're looking for.")
    } else if i == 2 {
        owned("I hope this helps.")
    } else if i == 3 {
        owned("Hey, I love this song too.")
    } else if i == 4 {
        owned("I like your taste.")
    } else {
        owned("I was wondering about this song too.")
    }
}

/// The delivery that a request mode calls for.
pub open spec fn delivery_for(mode: DeliveryMode) -> Delivery {
    match mode {
        DeliveryMode::Interactive => Delivery::EphemeralFollowUp,
        DeliveryMode::Channel => Delivery::ThreadedReply,
    }
}

/// A reply that carries a notice alone.
pub open spec fn notice(title: Seq<char>, description: Seq<char>, color: u32, mode: DeliveryMode) -> ReplyView {
    ReplyView {
        content: None,
        card: CardView {
            title,
            description,
            url: None,
            color,
            thumbnail: None,
            footer: None,
            fields: Seq::empty(),
        },
        buttons: Seq::empty(),
        delivery: delivery_for(mode),
    }
}

pub open spec fn no_match_notice(mode: DeliveryMode) -> ReplyView {
    notice(
        "No matches found"@,
        "We searched your media for a matching song, and couldn't find anything."@,
        NO_MATCH_COLOR,
        mode,
    )
}

pub open spec fn failure_notice(mode: DeliveryMode) -> ReplyView {
    notice(
        "Failed to process media"@,
        "We tried processing the media you requested, but an error occurred somewhere along the way. Sorry about that."@,
        FAILURE_COLOR,
        mode,
    )
}

/// The reply for a found track with lead-in `i`: title, subtitle, the
/// canonical link unless it is empty, artwork, footer, metadata fields and
/// provider links.
pub open spec fn found_reply(t: Track, i: int, mode: DeliveryMode) -> ReplyView {
    ReplyView {
        content: Some(lead_in_phrase(i)),
        card: CardView {
            title: t.title@,
            description: t.subtitle@,
            url: if t.url@.len() == 0 {
                None
            } else {
                Some(t.url@)
            },
            color: FOUND_COLOR,
            thumbnail: Some(t.coverart@),
            footer: Some((
                "Shazam"@,
                "https://cdn.discordapp.com/attachments/165560751363325952/1014753423045955674/84px-Shazam_icon.svg1.png"@,
            )),
            fields: fields_of(t.sections@, t.sections@.len() as int),
        },
        buttons: provider_buttons(t),
        delivery: delivery_for(mode),
    }
}

/// The reply for a match result.
pub open spec fn reply_for(result: MatchResult, i: int, mode: DeliveryMode) -> ReplyView {
    match result {
        MatchResult::Found(t) => found_reply(t, i, mode),
        MatchResult::NoMatch => no_match_notice(mode),
        MatchResult::BackendError => failure_notice(mode),
    }
}

fn delivery_of(mode: DeliveryMode) -> (r: Delivery)
    ensures
        r == delivery_for(mode),
{
    match mode {
        DeliveryMode::Interactive => Delivery::EphemeralFollowUp,
        DeliveryMode::Channel => Delivery::ThreadedReply,
    }
}

fn notice_reply(title: &str, description: &str, color: u32, mode: DeliveryMode) -> (r: Reply)
    ensures
        r@ == notice(title@, description@, color, mode),
{
    let r = Reply {
        content: None,
        card: Card {
            title: owned(title),
            description: owned(description),
            url: None,
            color,
            thumbnail: None,
            footer: None,
            fields: Vec::new(),
        },
        buttons: Vec::new(),
        delivery: delivery_of(mode),
    };
    assert(r@.card.fields =~= Seq::<FieldView>::empty());
    assert(r@.buttons =~= Seq::<ButtonView>::empty());
    r
}

fn found_track_reply(t: &Track, i: usize, mode: DeliveryMode) -> (r: Reply)
    requires
        i < LEAD_IN_COUNT,
    ensures
        r@ == found_reply(*t, i as int, mode),
{
    let url = if t.url.as_str().is_empty() {
        None
    } else {
        Some(t.url.clone())
    };
    Reply {
        content: Some(lead_in(i)),
        card: Card {
            title: t.title.clone(),
            description: t.subtitle.clone(),
            url,
            color: FOUND_COLOR,
            thumbnail: Some(t.coverart.clone()),
            footer: Some(
                Footer {
                    text: owned("Shazam"),
                    icon_url: owned(
                        "https://cdn.discordapp.com/attachments/165560751363325952/1014753423045955674/84px-Shazam_icon.svg1.png",
                    ),
                },
            ),
            fields: metadata_fields(&t.sections),
        },
        buttons: provider_links(t),
        delivery: delivery_of(mode),
    }
}

/// The reply for a match result, with the lead-in phrase of index `lead`
/// for a found track. Every result gets exactly one reply.
pub fn compose_reply(result: &MatchResult, lead: usize, mode: DeliveryMode) -> (r: Reply)
    requires
        lead < LEAD_IN_COUNT,
    ensures
        r@ == reply_for(*result, lead as int, mode),
{
    match result {
        MatchResult::Found(t) => found_track_reply(t, lead, mode),
        MatchResult::NoMatch => notice_reply(
            "No matches found",
            "We searched your media for a matching song, and couldn't find anything.",
            NO_MATCH_COLOR,
            mode,
        ),
        MatchResult::BackendError => notice_reply(
            "Failed to process media",
            "We tried processing the media you requested, but an error occurred somewhere along the way. Sorry about that.",
            FAILURE_COLOR,
            mode,
        ),
    }
}

/// Relies on rand::thread_rng and Rng::gen_range: an index below `len`
/// (which must not be zero, else it panics).
#[verifier::external_body]
fn random_index(len: usize) -> (r: usize)
    requires
        len > 0,
    ensures
        r < len,
{
    rand::Rng::gen_range(&mut rand::thread_rng(), 0..len)
}

/// The reply for a match result, with a lead-in phrase drawn at random.
pub fn compose_reply_random(result: &MatchResult, mode: DeliveryMode) -> (r: Reply)
    ensures
        exists|i: int| 0 <= i < LEAD_IN_COUNT && r@ == reply_for(*result, i, mode),
{
    let lead = random_index(LEAD_IN_COUNT);
    compose_reply(result, lead, mode)
}

} // verus!
