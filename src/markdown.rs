use vstd::prelude::*;
use vstd::string::*;
use pulldown_cmark::{html, Event, LinkType, Options, Parser, Tag};
use crate::cache::{url_lookup, opt_view, UrlCache, UrlMeta, UrlTable};
use crate::text::{is_local_path, starts_with_local};

verus! {

/// The markdown events that rendering looks at; every other event is `Other`.
pub enum MdEvent {
    /// The start of an autolink (`<https://...>`) to `url`.
    AutolinkStart { url: String },
    /// The end of any link.
    LinkEnd,
    /// The start of an image whose target is `url`.
    ImageStart { url: String },
    /// A run of text.
    Text { text: String },
    Other,
}

/// The mathematical content of an [`MdEvent`].
pub enum MdItem {
    AutolinkStart(Seq<char>),
    LinkEnd,
    ImageStart(Seq<char>),
    Text(Seq<char>),
    Other,
}

impl View for MdEvent {
    type V = MdItem;

    open spec fn view(&self) -> MdItem {
        match self {
            MdEvent::AutolinkStart { url } => MdItem::AutolinkStart(url@),
            MdEvent::LinkEnd => MdItem::LinkEnd,
            MdEvent::ImageStart { url } => MdItem::ImageStart(url@),
            MdEvent::Text { text } => MdItem::Text(text@),
            MdEvent::Other => MdItem::Other,
        }
    }
}

/// What to emit in place of one markdown event.
pub enum Rewrite {
    /// The event as the parser gave it.
    Keep,
    /// Raw HTML.
    Html { html: String },
    /// Text, escaped when rendered.
    Text { text: String },
}

/// The mathematical content of a [`Rewrite`].
pub enum Edit {
    Keep,
    Html(Seq<char>),
    Text(Seq<char>),
}

impl View for Rewrite {
    type V = Edit;

    open spec fn view(&self) -> Edit {
        match self {
            Rewrite::Keep => Edit::Keep,
            Rewrite::Html { html } => Edit::Html(html@),
            Rewrite::Text { text } => Edit::Text(text@),
        }
    }
}

pub open spec fn events_view(v: Seq<MdEvent>) -> Seq<MdItem> {
    v.map_values(|e: MdEvent| e@)
}

pub open spec fn rewrites_view(v: Seq<Rewrite>) -> Seq<Edit> {
    v.map_values(|e: Rewrite| e@)
}

/// The events that pulldown-cmark, with all its extensions, reads in a text.
pub uninterp spec fn md_events(text: Seq<char>) -> Seq<MdItem>;

/// The HTML that pulldown-cmark writes for a text whose events are replaced
/// as `edits` says, one edit for each event.
pub uninterp spec fn md_html(text: Seq<char>, edits: Seq<Edit>) -> Seq<char>;

/// Relies on pulldown_cmark::Parser::new_ext with Options::all(): the events of
/// the text, each told apart by its variant.
#[verifier::external_body]
fn parse_events(text: &str) -> (r: Vec<MdEvent>)
    ensures
        events_view(r@) == md_events(text@),
{
    Parser::new_ext(text, Options::all()).map(|e| match e {
        Event::Start(Tag::Link(LinkType::Autolink, url, _)) => MdEvent::AutolinkStart { url: url.to_string() },
        Event::End(Tag::Link(..)) => MdEvent::LinkEnd,
        Event::Start(Tag::Image(_, url, _)) => MdEvent::ImageStart { url: url.to_string() },
        Event::Text(t) => MdEvent::Text { text: t.to_string() },
        _ => MdEvent::Other,
    }).collect()
}

/// Relies on pulldown_cmark::html::push_html over the events of
/// Parser::new_ext with Options::all(), each replaced as its edit says.
#[verifier::external_body]
fn render_events(text: &str, edits: &Vec<Rewrite>) -> (r: String)
    requires
        edits@.len() == md_events(text@).len(),
    ensures
        r@ == md_html(text@, rewrites_view(edits@)),
{
    let mut out = String::new();
    let events = Parser::new_ext(text, Options::all()).zip(edits.iter()).map(|(e, w)| match w {
        Rewrite::Keep => e,
        Rewrite::Html { html } => Event::Html(html.clone().into()),
        Rewrite::Text { text } => Event::Text(text.clone().into()),
    });
    html::push_html(&mut out, events);
    out
}

pub const A_OPEN: &'static str = "<a href=\"";
pub const A_MID: &'static str = "\">";
pub const A_CLOSE: &'static str = "</a>";
pub const CARD_OPEN: &'static str = "<a class=\"link_card\" href=\"";
pub const CARD_TITLE: &'static str = "\"><div class=\"link_card_body\"><div class=\"link_card_title\">";
pub const CARD_DESCRIPTION: &'static str = "</div><div class=\"link_card_description\">";
pub const CARD_BODY_END: &'static str = "</div></div>";
pub const CARD_CLOSE: &'static str = "</a>";
pub const FAVICON_OPEN: &'static str = "<img class=\"link_card_favicon\" src=\"";
pub const CARD_IMAGE_OPEN: &'static str = "<img class=\"link_card_image\" src=\"";
pub const IMG_CLOSE: &'static str = "\" />";

/// A plain anchor whose target and visible text are both the URL.
pub open spec fn plain_link(url: Seq<char>) -> Seq<char> {
    A_OPEN@ + url + A_MID@ + url + A_CLOSE@
}

pub open spec fn img_fragment(open: Seq<char>, src: Option<Seq<char>>) -> Seq<char> {
    match src {
        Some(s) => open + s + IMG_CLOSE@,
        None => Seq::empty(),
    }
}

pub open spec fn or_empty(o: Option<Seq<char>>) -> Seq<char> {
    match o {
        Some(s) => s,
        None => Seq::empty(),
    }
}

/// A link card: URL, favicon, title, description, and the preview image.
pub open spec fn link_card(m: UrlMeta) -> Seq<char> {
    CARD_OPEN@ + m.url + CARD_TITLE@ + img_fragment(FAVICON_OPEN@, m.favicon) + m.title
        + CARD_DESCRIPTION@ + or_empty(m.description) + CARD_BODY_END@
        + img_fragment(CARD_IMAGE_OPEN@, m.image) + CARD_CLOSE@
}

/// The HTML that stands for an autolink to `url`.
pub open spec fn autolink_html(url: Seq<char>, table: Seq<UrlMeta>) -> Seq<char> {
    match url_lookup(table, url) {
        Some(m) => link_card(m),
        None => plain_link(url),
    }
}

/// Whether the events before index `n` leave an autolink open.
pub open spec fn in_autolink(ev: Seq<MdItem>, n: int) -> bool
    decreases n,
{
    if n <= 0 {
        false
    } else {
        match ev[n - 1] {
            MdItem::AutolinkStart(_) => true,
            MdItem::LinkEnd => false,
            _ => in_autolink(ev, n - 1),
        }
    }
}

/// The edit of event `i`: an autolink becomes a complete fragment, so its text
/// and its end are emptied; text that is a URL with metadata is emptied too.
pub open spec fn edit_at(ev: Seq<MdItem>, table: Seq<UrlMeta>, i: int) -> Edit {
    match ev[i] {
        MdItem::AutolinkStart(u) => Edit::Html(autolink_html(u, table)),
        MdItem::LinkEnd => if in_autolink(ev, i) {
            Edit::Html(Seq::empty())
        } else {
            Edit::Keep
        },
        MdItem::Text(t) => if in_autolink(ev, i) || url_lookup(table, t) is Some {
            Edit::Text(Seq::empty())
        } else {
            Edit::Keep
        },
        _ => Edit::Keep,
    }
}

pub open spec fn edits_of(ev: Seq<MdItem>, table: Seq<UrlMeta>) -> Seq<Edit> {
    Seq::new(ev.len(), |i: int| edit_at(ev, table, i))
}

pub open spec fn is_autolink_in(ev: Seq<MdItem>, u: Seq<char>) -> bool {
    exists|j: int| 0 <= j < ev.len() && ev[j] == MdItem::AutolinkStart(u)
}

pub open spec fn is_local_image_in(ev: Seq<MdItem>, u: Seq<char>) -> bool {
    starts_with_local(u) && exists|j: int| 0 <= j < ev.len() && ev[j] == MdItem::ImageStart(u)
}

pub open spec fn distinct(v: Seq<String>) -> bool {
    forall|i: int, j: int| 0 <= i < j < v.len() ==> v[i]@ != v[j]@
}

pub open spec fn holds(v: Seq<String>, u: Seq<char>) -> bool {
    exists|i: int| 0 <= i < v.len() && v[i]@ == u
}

proof fn lemma_prefix_step(ev: Seq<MdItem>, i: int, u: Seq<char>)
    requires
        0 <= i < ev.len(),
    ensures
        is_autolink_in(ev.subrange(0, i + 1), u) <==> (is_autolink_in(ev.subrange(0, i), u)
            || ev[i] == MdItem::AutolinkStart(u)),
        is_local_image_in(ev.subrange(0, i + 1), u) <==> (is_local_image_in(ev.subrange(0, i), u)
            || (starts_with_local(u) && ev[i] == MdItem::ImageStart(u))),
{
    let a = ev.subrange(0, i);
    let b = ev.subrange(0, i + 1);
    assert(b[i] == ev[i]);
    assert forall|j: int| 0 <= j < i implies a[j] == b[j] by {}
    if is_autolink_in(b, u) {
        let j = choose|j: int| 0 <= j < b.len() && b[j] == MdItem::AutolinkStart(u);
        if j < i {
            assert(a[j] == MdItem::AutolinkStart(u));
        }
    }
    if is_local_image_in(b, u) {
        let j = choose|j: int| 0 <= j < b.len() && b[j] == MdItem::ImageStart(u);
        if j < i {
            assert(a[j] == MdItem::ImageStart(u));
        }
    }
}

/// After a loop step a list of strings is either unchanged or has one more
/// string at its end.
proof fn lemma_holds_push_or_same(prev: Seq<String>, cur: Seq<String>)
    requires
        cur == prev || (cur.len() == prev.len() + 1 && cur.drop_last() == prev),
    ensures
        forall|u: Seq<char>| holds(cur, u) <==> (holds(prev, u) || (cur.len() > prev.len()
            && cur.last()@ == u)),
{
    assert forall|u: Seq<char>| holds(cur, u) <==> (holds(prev, u) || (cur.len() > prev.len()
        && cur.last()@ == u)) by {
        if cur.len() > prev.len() {
            if holds(cur, u) {
                let k = choose|k: int| 0 <= k < cur.len() && cur[k]@ == u;
                if k < prev.len() {
                    assert(cur.drop_last()[k] == cur[k]);
                }
            }
            if holds(prev, u) {
                let k = choose|k: int| 0 <= k < prev.len() && prev[k]@ == u;
                assert(cur.drop_last()[k] == cur[k]);
            }
            if cur.last()@ == u {
                assert(cur[cur.len() - 1]@ == u);
            }
        }
    }
}

fn contains_string(v: &Vec<String>, s: &String) -> (r: bool)
    ensures
        r == holds(v@, s@),
{
    let mut i: usize = 0;
    while i < v.len()
        invariant
            i <= v@.len(),
            forall|j: int| 0 <= j < i ==> v@[j]@ != s@,
        decreases v@.len() - i,
    {
        if v[i].eq(s) {
            return true;
        }
        i = i + 1;
    }
    false
}

fn push_opt_img(out: &mut String, open: &str, src: &Option<String>)
    ensures
        final(out)@ == old(out)@ + img_fragment(open@, opt_view(*src)),
{
    match src {
        Some(s) => {
            out.append(open);
            out.append(s.as_str());
            out.append(IMG_CLOSE);
        },
        None => {
            proof {
                assert(old(out)@ + Seq::<char>::empty() =~= old(out)@);
            }
        },
    }
}

/// The link-card fragment for metadata `m`.
pub fn link_card_html(m: &UrlCache) -> (r: String)
    ensures
        r@ == link_card(m@),
{
    let mut out = String::new();
    out.append(CARD_OPEN);
    out.append(m.url.as_str());
    out.append(CARD_TITLE);
    push_opt_img(&mut out, FAVICON_OPEN, &m.favicon);
    out.append(m.title.as_str());
    out.append(CARD_DESCRIPTION);
    match &m.description {
        Some(d) => out.append(d.as_str()),
        None => {},
    }
    out.append(CARD_BODY_END);
    push_opt_img(&mut out, CARD_IMAGE_OPEN, &m.image);
    out.append(CARD_CLOSE);
    proof {
        assert(out@ =~= link_card(m@));
    }
    out
}

/// The fragment for an autolink to `url`: a link card where the table has
/// metadata for it, a plain anchor otherwise.
pub fn autolink_fragment(url: &String, table: &UrlTable) -> (r: String)
    ensures
        r@ == autolink_html(url@, table@),
{
    match table.get(url) {
        Some(m) => link_card_html(m),
        None => {
            let mut out = String::new();
            out.append(A_OPEN);
            out.append(url.as_str());
            out.append(A_MID);
            out.append(url.as_str());
            out.append(A_CLOSE);
            proof {
                assert(out@ =~= plain_link(url@));
            }
            out
        },
    }
}

/// An autolink to a URL without metadata becomes a plain anchor whose target
/// and visible text are both the URL, and the text node that follows its
/// start is emptied, so the URL is not shown twice.
pub proof fn plain_autolink_shows_url_once(ev: Seq<MdItem>, table: Seq<UrlMeta>, i: int, u: Seq<char>, t: Seq<char>)
    requires
        0 <= i,
        i + 1 < ev.len(),
        ev[i] == MdItem::AutolinkStart(u),
        ev[i + 1] == MdItem::Text(t),
        url_lookup(table, u) is None,
    ensures
        edits_of(ev, table)[i] == Edit::Html(plain_link(u)),
        edits_of(ev, table)[i + 1] == Edit::Text(Seq::empty()),
{
    assert(in_autolink(ev, i + 1));
}

/// An autolink to a URL with metadata `m` becomes the link card of `m`, the
/// text node that follows its start is emptied, and so is every text node
/// anywhere that is exactly that URL.
pub proof fn known_autolink_becomes_card(ev: Seq<MdItem>, table: Seq<UrlMeta>, i: int, u: Seq<char>, t: Seq<char>)
    requires
        0 <= i,
        i + 1 < ev.len(),
        ev[i] == MdItem::AutolinkStart(u),
        ev[i + 1] == MdItem::Text(t),
        url_lookup(table, u) is Some,
    ensures
        edits_of(ev, table)[i] == Edit::Html(link_card(url_lookup(table, u)->0)),
        edits_of(ev, table)[i + 1] == Edit::Text(Seq::empty()),
        forall|k: int| 0 <= k < ev.len() && ev[k] == MdItem::Text(u) ==> edits_of(ev, table)[k] == Edit::Text(Seq::empty()),
{
    assert(in_autolink(ev, i + 1));
}

/// One edit for each event: autolinks become fragments (link cards where the
/// table has metadata), their text and end are emptied, and text that is a URL
/// with metadata is emptied.
pub fn rewrite_events(events: &Vec<MdEvent>, table: &UrlTable) -> (r: Vec<Rewrite>)
    ensures
        rewrites_view(r@) == edits_of(events_view(events@), table@),
{
    let ghost ev = events_view(events@);
    let mut out: Vec<Rewrite> = Vec::new();
    let mut inside = false;
    let mut i: usize = 0;
    while i < events.len()
        invariant
            ev == events_view(events@),
            i <= events@.len(),
            inside == in_autolink(ev, i as int),
            rewrites_view(out@) == edits_of(ev, table@).subrange(0, i as int),
        decreases events@.len() - i,
    {
        let w = match &events[i] {
            MdEvent::AutolinkStart { url } => {
                inside = true;
                Rewrite::Html { html: autolink_fragment(url, table) }
            },
            MdEvent::LinkEnd => {
                let w = if inside {
                    Rewrite::Html { html: String::new() }
                } else {
                    Rewrite::Keep
                };
                inside = false;
                w
            },
            MdEvent::Text { text } => {
                if inside || table.contains(text) {
                    Rewrite::Text { text: String::new() }
                } else {
                    Rewrite::Keep
                }
            },
            _ => Rewrite::Keep,
        };
        proof {
            assert(w@ == edit_at(ev, table@, i as int));
        }
        let ghost before = out@;
        out.push(w);
        proof {
            assert(out@ == before.push(w));
            assert(rewrites_view(out@) =~= rewrites_view(before).push(w@));
            assert(rewrites_view(out@) =~= edits_of(ev, table@).subrange(0, i + 1));
        }
        i = i + 1;
    }
    proof {
        assert(edits_of(ev, table@).subrange(0, i as int) =~= edits_of(ev, table@));
    }
    out
}

/// The URLs of the autolinks among `events` that the table has no metadata
/// for, each once.
pub fn pending_urls(events: &Vec<MdEvent>, table: &UrlTable) -> (r: Vec<String>)
    ensures
        distinct(r@),
        forall|u: Seq<char>| holds(r@, u) <==> (is_autolink_in(events_view(events@), u)
            && url_lookup(table@, u) is None),
{
    let ghost ev = events_view(events@);
    let mut out: Vec<String> = Vec::new();
    let mut i: usize = 0;
    while i < events.len()
        invariant
            ev == events_view(events@),
            i <= events@.len(),
            distinct(out@),
            forall|u: Seq<char>| holds(out@, u) <==> (is_autolink_in(ev.subrange(0, i as int), u)
                && url_lookup(table@, u) is None),
        decreases events@.len() - i,
    {
        let ghost prev = out@;
        match &events[i] {
            MdEvent::AutolinkStart { url } => {
                if !table.contains(url) && !contains_string(&out, url) {
                    out.push(url.clone());
                    proof {
                        assert(out@.last()@ == url@);
                        assert(out@.drop_last() =~= prev);
                    }
                }
            },
            _ => {},
        }
        proof {
            lemma_holds_push_or_same(prev, out@);
            assert forall|u: Seq<char>| holds(out@, u) <==> (is_autolink_in(ev.subrange(0, i + 1), u)
                && url_lookup(table@, u) is None) by {
                lemma_prefix_step(ev, i as int, u);
            }
        }
        i = i + 1;
    }
    proof {
        assert(ev.subrange(0, i as int) =~= ev);
    }
    out
}

/// The local image paths (those starting with "./") among `events`, each once.
pub fn local_images(events: &Vec<MdEvent>) -> (r: Vec<String>)
    ensures
        distinct(r@),
        forall|u: Seq<char>| holds(r@, u) <==> is_local_image_in(events_view(events@), u),
{
    let ghost ev = events_view(events@);
    let mut out: Vec<String> = Vec::new();
    let mut i: usize = 0;
    while i < events.len()
        invariant
            ev == events_view(events@),
            i <= events@.len(),
            distinct(out@),
            forall|u: Seq<char>| holds(out@, u) <==> is_local_image_in(ev.subrange(0, i as int), u),
        decreases events@.len() - i,
    {
        let ghost prev = out@;
        match &events[i] {
            MdEvent::ImageStart { url } => {
                if is_local_path(url.as_str()) && !contains_string(&out, url) {
                    out.push(url.clone());
                    proof {
                        assert(out@.last()@ == url@);
                        assert(out@.drop_last() =~= prev);
                    }
                }
            },
            _ => {},
        }
        proof {
            lemma_holds_push_or_same(prev, out@);
            assert forall|u: Seq<char>| holds(out@, u) <==> (is_local_image_in(ev.subrange(0, i + 1), u)) by {
                lemma_prefix_step(ev, i as int, u);
            }
        }
        i = i + 1;
    }
    proof {
        assert(ev.subrange(0, i as int) =~= ev);
    }
    out
}

/// The URLs of a document's autolinks that still need metadata, each once.
/// The whole document is read, front matter included.
pub fn links_to_resolve(doc: &str, table: &UrlTable) -> (r: Vec<String>)
    ensures
        distinct(r@),
        forall|u: Seq<char>| holds(r@, u) <==> (is_autolink_in(md_events(doc@), u)
            && url_lookup(table@, u) is None),
{
    let events = parse_events(doc);
    pending_urls(&events, table)
}

/// The rendered body and its local images, each once.
pub struct RenderedBody {
    pub html: String,
    pub images: Vec<String>,
}

/// Renders a body to HTML, rewriting autolinks with the table's metadata, and
/// collects its local images.
pub fn render_body(body: &str, table: &UrlTable) -> (r: RenderedBody)
    ensures
        r.html@ == md_html(body@, edits_of(md_events(body@), table@)),
        distinct(r.images@),
        forall|u: Seq<char>| holds(r.images@, u) <==> is_local_image_in(md_events(body@), u),
{
    let events = parse_events(body);
    let edits = rewrite_events(&events, table);
    proof {
        assert(rewrites_view(edits@).len() == edits@.len());
    }
    let images = local_images(&events);
    let html = render_events(body, &edits);
    RenderedBody { html, images }
}

} // verus!
