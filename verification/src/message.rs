//! The payload formatter: turns an inbound alert into the rich message the
//! destination chat service expects — an `embeds` list of one element with
//! an author block, a description, and a color.

use vstd::prelude::*;

use crate::text::lex_lt;

verus! {

use vstd::string::StringExecFns;

/// Embed color for an object alert whose `close` precedes its `open`.
pub const COLOR_RED: u32 = 0xFF0000;

/// Embed color for every other object alert.
pub const COLOR_GREEN: u32 = 0x00FF00;

/// Embed color for a non-object alert.
pub const COLOR_PINK: u32 = 0xFFC0CB;

/// The static homepage link embedded in every message.
pub open spec fn homepage_url() -> Seq<char> {
    "https://github.com/coinchimp/whistle"@
}

/// The static icon link embedded in every message.
pub open spec fn icon_url() -> Seq<char> {
    "https://raw.githubusercontent.com/coinchimp/whistle/main/assets/images/whistle.png"@
}

/// An inbound alert, as the relay reads it: either a JSON object, reduced to
/// its seven recognized fields (each the empty string when absent or not a
/// string), or any other JSON value, reduced to its canonical text rendering.
#[derive(Clone, Debug, PartialEq, Eq)]
pub enum Alert {
    Fields {
        exchange: String,
        ticker: String,
        close: String,
        open: String,
        volume: String,
        event: String,
        interval: String,
    },
    Text { rendering: String },
}

/// The view of an alert: the same shape over character sequences.
pub enum AlertView {
    Fields {
        exchange: Seq<char>,
        ticker: Seq<char>,
        close: Seq<char>,
        open: Seq<char>,
        volume: Seq<char>,
        event: Seq<char>,
        interval: Seq<char>,
    },
    Text { rendering: Seq<char> },
}

impl View for Alert {
    type V = AlertView;

    open spec fn view(&self) -> AlertView {
        match self {
            Alert::Fields { exchange, ticker, close, open, volume, event, interval } =>
                AlertView::Fields {
                    exchange: exchange@,
                    ticker: ticker@,
                    close: close@,
                    open: open@,
                    volume: volume@,
                    event: event@,
                    interval: interval@,
                },
            Alert::Text { rendering } => AlertView::Text { rendering: rendering@ },
        }
    }
}

/// The author block of an outbound message.
#[derive(Clone, Debug, PartialEq, Eq)]
pub struct Author {
    pub name: String,
    pub url: String,
    pub icon_url: String,
}

/// The view of an author block.
#[verifier::ext_equal]
pub struct AuthorView {
    pub name: Seq<char>,
    pub url: Seq<char>,
    pub icon_url: Seq<char>,
}

impl View for Author {
    type V = AuthorView;

    open spec fn view(&self) -> AuthorView {
        AuthorView { name: self.name@, url: self.url@, icon_url: self.icon_url@ }
    }
}

/// One embed of an outbound message.
#[derive(Clone, Debug, PartialEq, Eq)]
pub struct Embed {
    pub author: Author,
    pub description: String,
    pub color: u32,
}

/// The view of an embed.
#[verifier::ext_equal]
pub struct EmbedView {
    pub author: AuthorView,
    pub description: Seq<char>,
    pub color: u32,
}

impl View for Embed {
    type V = EmbedView;

    open spec fn view(&self) -> EmbedView {
        EmbedView { author: self.author@, description: self.description@, color: self.color }
    }
}

/// An outbound message: an `embeds` sequence of exactly one element.
#[derive(Clone, Debug, PartialEq, Eq)]
pub struct Message {
    pub embeds: Vec<Embed>,
}

/// The view of an outbound message.
#[verifier::ext_equal]
pub struct MessageView {
    pub embeds: Seq<EmbedView>,
}

impl View for Message {
    type V = MessageView;

    open spec fn view(&self) -> MessageView {
        MessageView { embeds: self.embeds@.map_values(|e: Embed| e@) }
    }
}

/// The title of an object alert's message.
pub open spec fn title_text(ticker: Seq<char>, event: Seq<char>, exchange: Seq<char>) -> Seq<
    char,
> {
    "Whistle: "@ + ticker + " "@ + event + " at "@ + exchange
}

/// The description of an object alert's message: Open, Close, Interval and
/// Volume, each on its own line.
pub open spec fn body_text(
    open: Seq<char>,
    close: Seq<char>,
    interval: Seq<char>,
    volume: Seq<char>,
) -> Seq<char> {
    "Open: "@ + open + "\nClose: "@ + close + "\nInterval: "@ + interval + "\nVolume: "@ + volume
        + "\n"@
}

/// What the formatter yields for a given alert. Formatting is a pure
/// function of the alert: no side effects, no failure modes.
pub open spec fn format_spec(a: AlertView) -> MessageView {
    match a {
        AlertView::Fields { exchange, ticker, close, open, volume, event, interval } =>
            MessageView {
                embeds: seq![
                    EmbedView {
                        author: AuthorView {
                            name: title_text(ticker, event, exchange),
                            url: homepage_url(),
                            icon_url: icon_url(),
                        },
                        description: body_text(open, close, interval, volume),
                        color: if lex_lt(close, open) {
                            COLOR_RED
                        } else {
                            COLOR_GREEN
                        },
                    },
                ],
            },
        AlertView::Text { rendering } => MessageView {
            embeds: seq![
                EmbedView {
                    author: AuthorView {
                        name: "Whistle: Text Notification"@,
                        url: homepage_url(),
                        icon_url: icon_url(),
                    },
                    description: "Event: "@ + rendering,
                    color: COLOR_PINK,
                },
            ],
        },
    }
}

/// Builds the title of an object alert's message.
fn title_of(ticker: &str, event: &str, exchange: &str) -> (r: String)
    ensures
        r@ == title_text(ticker@, event@, exchange@),
{
    let mut s = String::from_str("Whistle: ");
    s.append(ticker);
    s.append(" ");
    s.append(event);
    s.append(" at ");
    s.append(exchange);
    s
}

/// Builds the description of an object alert's message.
fn body_of(open: &str, close: &str, interval: &str, volume: &str) -> (r: String)
    ensures
        r@ == body_text(open@, close@, interval@, volume@),
{
    let mut s = String::from_str("Open: ");
    s.append(open);
    s.append("\nClose: ");
    s.append(close);
    s.append("\nInterval: ");
    s.append(interval);
    s.append("\nVolume: ");
    s.append(volume);
    s.append("\n");
    s
}

/// Wraps one embed as the whole message.
fn message_of(embed: Embed) -> (m: Message)
    ensures
        m@.embeds =~= seq![embed@],
{
    let ghost ev = embed@;
    let mut embeds: Vec<Embed> = Vec::new();
    embeds.push(embed);
    let m = Message { embeds };
    proof {
        assert(m@.embeds =~= seq![ev]);
    }
    m
}

/// Formats an alert into the outbound message: an object alert becomes a
/// titled embed colored red when `close` lexicographically precedes `open`
/// and green otherwise; any other alert becomes a pink text notification
/// whose description is `"Event: "` followed by the alert's rendering.
pub fn format_alert(alert: &Alert) -> (m: Message)
    ensures
        m@ =~~= format_spec(alert@),
{
    match alert {
        Alert::Fields { exchange, ticker, close, open, volume, event, interval } => {
            let color = if crate::text::str_lt(close.as_str(), open.as_str()) {
                COLOR_RED
            } else {
                COLOR_GREEN
            };
            let author = Author {
                name: title_of(ticker.as_str(), event.as_str(), exchange.as_str()),
                url: String::from_str("https://github.com/coinchimp/whistle"),
                icon_url: String::from_str(
                    "https://raw.githubusercontent.com/coinchimp/whistle/main/assets/images/whistle.png",
                ),
            };
            let embed = Embed {
                author,
                description: body_of(
                    open.as_str(),
                    close.as_str(),
                    interval.as_str(),
                    volume.as_str(),
                ),
                color,
            };
            message_of(embed)
        },
        Alert::Text { rendering } => {
            let mut description = String::from_str("Event: ");
            description.append(rendering.as_str());
            let author = Author {
                name: String::from_str("Whistle: Text Notification"),
                url: String::from_str("https://github.com/coinchimp/whistle"),
                icon_url: String::from_str(
                    "https://raw.githubusercontent.com/coinchimp/whistle/main/assets/images/whistle.png",
                ),
            };
            let embed = Embed { author, description, color: COLOR_PINK };
            message_of(embed)
        },
    }
}

/// Formatting is pure: equal alerts format to equal messages, so formatting
/// the same alert twice yields the same message both times.
pub proof fn lemma_format_deterministic(a1: AlertView, a2: AlertView)
    requires
        a1 == a2,
    ensures
        format_spec(a1) == format_spec(a2),
{
}

/// The color rule for object alerts: red exactly when `close`
/// lexicographically precedes `open` as strings, green otherwise — in
/// particular green when the two are equal or both empty.
pub proof fn lemma_object_color(
    exchange: Seq<char>,
    ticker: Seq<char>,
    close: Seq<char>,
    open: Seq<char>,
    volume: Seq<char>,
    event: Seq<char>,
    interval: Seq<char>,
)
    ensures
        (format_spec(
            AlertView::Fields { exchange, ticker, close, open, volume, event, interval },
        ).embeds[0].color == if lex_lt(close, open) {
            COLOR_RED
        } else {
            COLOR_GREEN
        }),
{
}

/// The rule for non-object alerts: the description is `"Event: "` followed
/// by the alert's canonical rendering, and the color is pink.
pub proof fn lemma_text_format(rendering: Seq<char>)
    ensures
        (format_spec(AlertView::Text { rendering }).embeds[0].description == "Event: "@
            + rendering),
        (format_spec(AlertView::Text { rendering }).embeds[0].color == COLOR_PINK),
{
}

} // verus!
