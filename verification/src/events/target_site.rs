//! TargetSite: the four-dimensional mark by which workers recognise the
//! packages meant for them (domain, motif, state and context).

use vstd::prelude::*;
use crate::text::concat3;

verus! {

/// The Debug rendering that std gives a string slice (quoted and escaped).
pub uninterp spec fn str_debug_form(s: Seq<char>) -> Seq<char>;

/// Calls std's `Debug` formatting of `str` (through `format!("{:?}")`).
/// The contract only names the result: it is a function of the characters of `s`.
#[verifier::external_body]
pub(crate) fn debug_quoted(s: &str) -> (r: String)
    ensures
        r@ == str_debug_form(s@),
{
    format!("{:?}", s)
}

/// Domain tag: what the content is.
#[derive(Debug, Clone, PartialEq, Eq)]
pub enum DomainTag {
    Text,
    Image,
    Audio,
    Video,
    File,
    Event,
    Generic,
    Custom(String),
}

/// Motif tag: what the content looks like.
#[derive(Debug, Clone, PartialEq, Eq)]
pub enum MotifTag {
    Command,
    Mention,
    Url,
    Hashtag,
    Question,
    Exclamation,
    Number,
    Custom(String),
}

/// State tag: the functional state of a message.
#[derive(Debug, Clone, PartialEq, Eq)]
pub enum StateTag {
    IntentWeather,
    IntentQuestion,
    SpamSuspected,
    UserVip,
    UserBanned,
    UserAdmin,
    NeedsApiCall,
    ResponseReady,
    Error,
    Custom(String),
}

/// Context tag: where and how a message arrived.
#[derive(Debug, Clone, PartialEq, Eq)]
pub enum ContextTag {
    Group,
    Direct,
    Channel,
    NightMode,
    QuietMode,
    Reply,
    Forward,
    Custom(String),
}

/// A target site in one of the four dimensions.
#[derive(Debug, Clone, PartialEq, Eq)]
pub enum TargetSite {
    Domain(DomainTag),
    Motif(MotifTag),
    State(StateTag),
    Context(ContextTag),
}

/// "Custom(" + inner + ")".
pub open spec fn custom_form(inner: Seq<char>) -> Seq<char> {
    "Custom("@ + inner + ")"@
}

/// The variant name of a domain tag; a custom tag shows its text bare.
pub open spec fn domain_tag_text(t: DomainTag) -> Seq<char> {
    match t {
        DomainTag::Text => "Text"@,
        DomainTag::Image => "Image"@,
        DomainTag::Audio => "Audio"@,
        DomainTag::Video => "Video"@,
        DomainTag::File => "File"@,
        DomainTag::Event => "Event"@,
        DomainTag::Generic => "Generic"@,
        DomainTag::Custom(s) => custom_form(s@),
    }
}

/// The variant name of a motif tag; a custom tag shows its text bare.
pub open spec fn motif_tag_text(t: MotifTag) -> Seq<char> {
    match t {
        MotifTag::Command => "Command"@,
        MotifTag::Mention => "Mention"@,
        MotifTag::Url => "Url"@,
        MotifTag::Hashtag => "Hashtag"@,
        MotifTag::Question => "Question"@,
        MotifTag::Exclamation => "Exclamation"@,
        MotifTag::Number => "Number"@,
        MotifTag::Custom(s) => custom_form(s@),
    }
}

/// The variant name of a state tag; a custom tag shows its text bare.
pub open spec fn state_tag_text(t: StateTag) -> Seq<char> {
    match t {
        StateTag::IntentWeather => "IntentWeather"@,
        StateTag::IntentQuestion => "IntentQuestion"@,
        StateTag::SpamSuspected => "SpamSuspected"@,
        StateTag::UserVip => "UserVip"@,
        StateTag::UserBanned => "UserBanned"@,
        StateTag::UserAdmin => "UserAdmin"@,
        StateTag::NeedsApiCall => "NeedsApiCall"@,
        StateTag::ResponseReady => "ResponseReady"@,
        StateTag::Error => "Error"@,
        StateTag::Custom(s) => custom_form(s@),
    }
}

/// The variant name of a context tag; a custom tag shows its text bare.
pub open spec fn context_tag_text(t: ContextTag) -> Seq<char> {
    match t {
        ContextTag::Group => "Group"@,
        ContextTag::Direct => "Direct"@,
        ContextTag::Channel => "Channel"@,
        ContextTag::NightMode => "NightMode"@,
        ContextTag::QuietMode => "QuietMode"@,
        ContextTag::Reply => "Reply"@,
        ContextTag::Forward => "Forward"@,
        ContextTag::Custom(s) => custom_form(s@),
    }
}

/// A custom tag as the Debug form shows it: its text quoted.
pub open spec fn debug_custom(s: Seq<char>) -> Seq<char> {
    custom_form(str_debug_form(s))
}

/// The tag of a target site as its Debug form shows it.
pub open spec fn target_tag_text(t: TargetSite) -> Seq<char> {
    match t {
        TargetSite::Domain(DomainTag::Custom(s)) => debug_custom(s@),
        TargetSite::Domain(d) => domain_tag_text(d),
        TargetSite::Motif(MotifTag::Custom(s)) => debug_custom(s@),
        TargetSite::Motif(m) => motif_tag_text(m),
        TargetSite::State(StateTag::Custom(s)) => debug_custom(s@),
        TargetSite::State(st) => state_tag_text(st),
        TargetSite::Context(ContextTag::Custom(s)) => debug_custom(s@),
        TargetSite::Context(c) => context_tag_text(c),
    }
}

/// The dimension name of a target site.
pub open spec fn target_dimension(t: TargetSite) -> Seq<char> {
    match t {
        TargetSite::Domain(_) => "domain"@,
        TargetSite::Motif(_) => "motif"@,
        TargetSite::State(_) => "state"@,
        TargetSite::Context(_) => "context"@,
    }
}

fn custom_text(s: &String) -> (r: String)
    ensures
        r@ == custom_form(s@),
{
    concat3("Custom(", s.as_str(), ")")
}

fn custom_debug_text(s: &String) -> (r: String)
    ensures
        r@ == debug_custom(s@),
{
    let q = debug_quoted(s.as_str());
    concat3("Custom(", q.as_str(), ")")
}

impl DomainTag {
    /// The tag as a string.
    pub fn tag_string(&self) -> (r: String)
        ensures
            r@ == domain_tag_text(*self),
    {
        match self {
            DomainTag::Text => String::from_str("Text"),
            DomainTag::Image => String::from_str("Image"),
            DomainTag::Audio => String::from_str("Audio"),
            DomainTag::Video => String::from_str("Video"),
            DomainTag::File => String::from_str("File"),
            DomainTag::Event => String::from_str("Event"),
            DomainTag::Generic => String::from_str("Generic"),
            DomainTag::Custom(s) => custom_text(s),
        }
    }

    /// The tag in its Debug form (custom text quoted).
    fn debug_text(&self) -> (r: String)
        ensures
            r@ == target_tag_text(TargetSite::Domain(*self)),
    {
        match self {
            DomainTag::Custom(s) => custom_debug_text(s),
            _ => self.tag_string(),
        }
    }
}

impl MotifTag {
    /// The tag as a string.
    pub fn tag_string(&self) -> (r: String)
        ensures
            r@ == motif_tag_text(*self),
    {
        match self {
            MotifTag::Command => String::from_str("Command"),
            MotifTag::Mention => String::from_str("Mention"),
            MotifTag::Url => String::from_str("Url"),
            MotifTag::Hashtag => String::from_str("Hashtag"),
            MotifTag::Question => String::from_str("Question"),
            MotifTag::Exclamation => String::from_str("Exclamation"),
            MotifTag::Number => String::from_str("Number"),
            MotifTag::Custom(s) => custom_text(s),
        }
    }

    fn debug_text(&self) -> (r: String)
        ensures
            r@ == target_tag_text(TargetSite::Motif(*self)),
    {
        match self {
            MotifTag::Custom(s) => custom_debug_text(s),
            _ => self.tag_string(),
        }
    }
}

impl StateTag {
    /// The tag as a string.
    pub fn tag_string(&self) -> (r: String)
        ensures
            r@ == state_tag_text(*self),
    {
        match self {
            StateTag::IntentWeather => String::from_str("IntentWeather"),
            StateTag::IntentQuestion => String::from_str("IntentQuestion"),
            StateTag::SpamSuspected => String::from_str("SpamSuspected"),
            StateTag::UserVip => String::from_str("UserVip"),
            StateTag::UserBanned => String::from_str("UserBanned"),
            StateTag::UserAdmin => String::from_str("UserAdmin"),
            StateTag::NeedsApiCall => String::from_str("NeedsApiCall"),
            StateTag::ResponseReady => String::from_str("ResponseReady"),
            StateTag::Error => String::from_str("Error"),
            StateTag::Custom(s) => custom_text(s),
        }
    }

    fn debug_text(&self) -> (r: String)
        ensures
            r@ == target_tag_text(TargetSite::State(*self)),
    {
        match self {
            StateTag::Custom(s) => custom_debug_text(s),
            _ => self.tag_string(),
        }
    }
}

impl ContextTag {
    /// The tag as a string.
    pub fn tag_string(&self) -> (r: String)
        ensures
            r@ == context_tag_text(*self),
    {
        match self {
            ContextTag::Group => String::from_str("Group"),
            ContextTag::Direct => String::from_str("Direct"),
            ContextTag::Channel => String::from_str("Channel"),
            ContextTag::NightMode => String::from_str("NightMode"),
            ContextTag::QuietMode => String::from_str("QuietMode"),
            ContextTag::Reply => String::from_str("Reply"),
            ContextTag::Forward => String::from_str("Forward"),
            ContextTag::Custom(s) => custom_text(s),
        }
    }

    fn debug_text(&self) -> (r: String)
        ensures
            r@ == target_tag_text(TargetSite::Context(*self)),
    {
        match self {
            ContextTag::Custom(s) => custom_debug_text(s),
            _ => self.tag_string(),
        }
    }
}

impl TargetSite {
    /// A domain target site.
    pub fn domain(tag: DomainTag) -> (r: Self)
        ensures
            r == TargetSite::Domain(tag),
    {
        TargetSite::Domain(tag)
    }

    pub fn domain_text() -> (r: Self)
        ensures
            r == TargetSite::Domain(DomainTag::Text),
    {
        TargetSite::Domain(DomainTag::Text)
    }

    pub fn domain_image() -> (r: Self)
        ensures
            r == TargetSite::Domain(DomainTag::Image),
    {
        TargetSite::Domain(DomainTag::Image)
    }

    pub fn domain_audio() -> (r: Self)
        ensures
            r == TargetSite::Domain(DomainTag::Audio),
    {
        TargetSite::Domain(DomainTag::Audio)
    }

    pub fn domain_video() -> (r: Self)
        ensures
            r == TargetSite::Domain(DomainTag::Video),
    {
        TargetSite::Domain(DomainTag::Video)
    }

    pub fn domain_file() -> (r: Self)
        ensures
            r == TargetSite::Domain(DomainTag::File),
    {
        TargetSite::Domain(DomainTag::File)
    }

    pub fn domain_event() -> (r: Self)
        ensures
            r == TargetSite::Domain(DomainTag::Event),
    {
        TargetSite::Domain(DomainTag::Event)
    }

    /// A custom domain target site holding `tag`.
    pub fn domain_custom(tag: &str) -> (r: Self)
        ensures
            r matches TargetSite::Domain(DomainTag::Custom(s)) && s@ == tag@,
    {
        TargetSite::Domain(DomainTag::Custom(String::from_str(tag)))
    }

    /// A motif target site.
    pub fn motif(tag: MotifTag) -> (r: Self)
        ensures
            r == TargetSite::Motif(tag),
    {
        TargetSite::Motif(tag)
    }

    pub fn motif_command() -> (r: Self)
        ensures
            r == TargetSite::Motif(MotifTag::Command),
    {
        TargetSite::Motif(MotifTag::Command)
    }

    pub fn motif_mention() -> (r: Self)
        ensures
            r == TargetSite::Motif(MotifTag::Mention),
    {
        TargetSite::Motif(MotifTag::Mention)
    }

    pub fn motif_url() -> (r: Self)
        ensures
            r == TargetSite::Motif(MotifTag::Url),
    {
        TargetSite::Motif(MotifTag::Url)
    }

    pub fn motif_hashtag() -> (r: Self)
        ensures
            r == TargetSite::Motif(MotifTag::Hashtag),
    {
        TargetSite::Motif(MotifTag::Hashtag)
    }

    pub fn motif_question() -> (r: Self)
        ensures
            r == TargetSite::Motif(MotifTag::Question),
    {
        TargetSite::Motif(MotifTag::Question)
    }

    /// A custom motif target site holding `tag`.
    pub fn motif_custom(tag: &str) -> (r: Self)
        ensures
            r matches TargetSite::Motif(MotifTag::Custom(s)) && s@ == tag@,
    {
        TargetSite::Motif(MotifTag::Custom(String::from_str(tag)))
    }

    /// A state target site.
    pub fn state(tag: StateTag) -> (r: Self)
        ensures
            r == TargetSite::State(tag),
    {
        TargetSite::State(tag)
    }

    pub fn state_intent_weather() -> (r: Self)
        ensures
            r == TargetSite::State(StateTag::IntentWeather),
    {
        TargetSite::State(StateTag::IntentWeather)
    }

    pub fn state_intent_question() -> (r: Self)
        ensures
            r == TargetSite::State(StateTag::IntentQuestion),
    {
        TargetSite::State(StateTag::IntentQuestion)
    }

    pub fn state_spam_suspected() -> (r: Self)
        ensures
            r == TargetSite::State(StateTag::SpamSuspected),
    {
        TargetSite::State(StateTag::SpamSuspected)
    }

    pub fn state_user_vip() -> (r: Self)
        ensures
            r == TargetSite::State(StateTag::UserVip),
    {
        TargetSite::State(StateTag::UserVip)
    }

    pub fn state_user_banned() -> (r: Self)
        ensures
            r == TargetSite::State(StateTag::UserBanned),
    {
        TargetSite::State(StateTag::UserBanned)
    }

    pub fn state_needs_api() -> (r: Self)
        ensures
            r == TargetSite::State(StateTag::NeedsApiCall),
    {
        TargetSite::State(StateTag::NeedsApiCall)
    }

    pub fn state_response_ready() -> (r: Self)
        ensures
            r == TargetSite::State(StateTag::ResponseReady),
    {
        TargetSite::State(StateTag::ResponseReady)
    }

    /// A custom state target site holding `tag`.
    pub fn state_custom(tag: &str) -> (r: Self)
        ensures
            r matches TargetSite::State(StateTag::Custom(s)) && s@ == tag@,
    {
        TargetSite::State(StateTag::Custom(String::from_str(tag)))
    }

    /// A context target site.
    pub fn context(tag: ContextTag) -> (r: Self)
        ensures
            r == TargetSite::Context(tag),
    {
        TargetSite::Context(tag)
    }

    pub fn context_group() -> (r: Self)
        ensures
            r == TargetSite::Context(ContextTag::Group),
    {
        TargetSite::Context(ContextTag::Group)
    }

    pub fn context_direct() -> (r: Self)
        ensures
            r == TargetSite::Context(ContextTag::Direct),
    {
        TargetSite::Context(ContextTag::Direct)
    }

    pub fn context_channel() -> (r: Self)
        ensures
            r == TargetSite::Context(ContextTag::Channel),
    {
        TargetSite::Context(ContextTag::Channel)
    }

    pub fn context_night_mode() -> (r: Self)
        ensures
            r == TargetSite::Context(ContextTag::NightMode),
    {
        TargetSite::Context(ContextTag::NightMode)
    }

    pub fn context_quiet_mode() -> (r: Self)
        ensures
            r == TargetSite::Context(ContextTag::QuietMode),
    {
        TargetSite::Context(ContextTag::QuietMode)
    }

    pub fn context_reply() -> (r: Self)
        ensures
            r == TargetSite::Context(ContextTag::Reply),
    {
        TargetSite::Context(ContextTag::Reply)
    }

    /// A custom context target site holding `tag`.
    pub fn context_custom(tag: &str) -> (r: Self)
        ensures
            r matches TargetSite::Context(ContextTag::Custom(s)) && s@ == tag@,
    {
        TargetSite::Context(ContextTag::Custom(String::from_str(tag)))
    }

    /// The name of the dimension this site belongs to.
    pub fn dimension(&self) -> (r: &'static str)
        ensures
            r@ == target_dimension(*self),
    {
        match self {
            TargetSite::Domain(_) => "domain",
            TargetSite::Motif(_) => "motif",
            TargetSite::State(_) => "state",
            TargetSite::Context(_) => "context",
        }
    }

    /// The tag in its Debug form: the variant name, or `Custom("...")`.
    pub fn tag_string(&self) -> (r: String)
        ensures
            r@ == target_tag_text(*self),
    {
        match self {
            TargetSite::Domain(tag) => tag.debug_text(),
            TargetSite::Motif(tag) => tag.debug_text(),
            TargetSite::State(tag) => tag.debug_text(),
            TargetSite::Context(tag) => tag.debug_text(),
        }
    }
}


/// A domain tag shows as its variant's name; a custom one as `Custom(<text>)`.
pub proof fn lemma_domain_tag_text(t: DomainTag)
    ensures
        t is Text ==> domain_tag_text(t) == "Text"@,
        t is Image ==> domain_tag_text(t) == "Image"@,
        t is Audio ==> domain_tag_text(t) == "Audio"@,
        t is Video ==> domain_tag_text(t) == "Video"@,
        t is File ==> domain_tag_text(t) == "File"@,
        t is Event ==> domain_tag_text(t) == "Event"@,
        t is Generic ==> domain_tag_text(t) == "Generic"@,
        t matches DomainTag::Custom(x) ==> domain_tag_text(t) == "Custom("@ + x@ + ")"@,
{
}

/// A motif tag shows as its variant's name; a custom one as `Custom(<text>)`.
pub proof fn lemma_motif_tag_text(t: MotifTag)
    ensures
        t is Command ==> motif_tag_text(t) == "Command"@,
        t is Mention ==> motif_tag_text(t) == "Mention"@,
        t is Url ==> motif_tag_text(t) == "Url"@,
        t is Hashtag ==> motif_tag_text(t) == "Hashtag"@,
        t is Question ==> motif_tag_text(t) == "Question"@,
        t is Exclamation ==> motif_tag_text(t) == "Exclamation"@,
        t is Number ==> motif_tag_text(t) == "Number"@,
        t matches MotifTag::Custom(x) ==> motif_tag_text(t) == "Custom("@ + x@ + ")"@,
{
}

/// A state tag shows as its variant's name; a custom one as `Custom(<text>)`.
pub proof fn lemma_state_tag_text(t: StateTag)
    ensures
        t is IntentWeather ==> state_tag_text(t) == "IntentWeather"@,
        t is IntentQuestion ==> state_tag_text(t) == "IntentQuestion"@,
        t is SpamSuspected ==> state_tag_text(t) == "SpamSuspected"@,
        t is UserVip ==> state_tag_text(t) == "UserVip"@,
        t is UserBanned ==> state_tag_text(t) == "UserBanned"@,
        t is UserAdmin ==> state_tag_text(t) == "UserAdmin"@,
        t is NeedsApiCall ==> state_tag_text(t) == "NeedsApiCall"@,
        t is ResponseReady ==> state_tag_text(t) == "ResponseReady"@,
        t is Error ==> state_tag_text(t) == "Error"@,
        t matches StateTag::Custom(x) ==> state_tag_text(t) == "Custom("@ + x@ + ")"@,
{
}

/// A context tag shows as its variant's name; a custom one as `Custom(<text>)`.
pub proof fn lemma_context_tag_text(t: ContextTag)
    ensures
        t is Group ==> context_tag_text(t) == "Group"@,
        t is Direct ==> context_tag_text(t) == "Direct"@,
        t is Channel ==> context_tag_text(t) == "Channel"@,
        t is NightMode ==> context_tag_text(t) == "NightMode"@,
        t is QuietMode ==> context_tag_text(t) == "QuietMode"@,
        t is Reply ==> context_tag_text(t) == "Reply"@,
        t is Forward ==> context_tag_text(t) == "Forward"@,
        t matches ContextTag::Custom(x) ==> context_tag_text(t) == "Custom("@ + x@ + ")"@,
{
}

/// A target site names its dimension (`domain`, `motif`, `state` or
/// `context`) and shows its tag as the tag's own text, except that a custom
/// tag's text is quoted as Debug quotes a string.
pub proof fn lemma_target_site_text(t: TargetSite)
    ensures
        t is Domain ==> target_dimension(t) == "domain"@,
        t is Motif ==> target_dimension(t) == "motif"@,
        t is State ==> target_dimension(t) == "state"@,
        t is Context ==> target_dimension(t) == "context"@,
        t matches TargetSite::Domain(DomainTag::Custom(x)) ==> target_tag_text(t) == "Custom("@
            + str_debug_form(x@) + ")"@,
        t matches TargetSite::Motif(MotifTag::Custom(x)) ==> target_tag_text(t) == "Custom("@
            + str_debug_form(x@) + ")"@,
        t matches TargetSite::State(StateTag::Custom(x)) ==> target_tag_text(t) == "Custom("@
            + str_debug_form(x@) + ")"@,
        t matches TargetSite::Context(ContextTag::Custom(x)) ==> target_tag_text(t) == "Custom("@
            + str_debug_form(x@) + ")"@,
        t matches TargetSite::Domain(d) ==> !(d is Custom) ==> target_tag_text(t) == domain_tag_text(d),
        t matches TargetSite::Motif(m) ==> !(m is Custom) ==> target_tag_text(t) == motif_tag_text(m),
        t matches TargetSite::State(st) ==> !(st is Custom) ==> target_tag_text(t) == state_tag_text(st),
        t matches TargetSite::Context(c) ==> !(c is Custom) ==> target_tag_text(t) == context_tag_text(c),
{
}

} // verus!
