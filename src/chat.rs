//! The chat message tree, its mathematical model, and its builder methods.
use vstd::prelude::*;

verus! {

/// The text colors of a [`Chat`] message.
#[derive(Clone, Copy, Debug, PartialEq, Eq, Structural)]
pub enum Color {
    Black,
    DarkBlue,
    DarkGreen,
    DarkAqua,
    DarkRed,
    DarkPurple,
    Gold,
    Gray,
    DarkGray,
    Blue,
    Green,
    Aqua,
    Red,
    LightPurple,
    Yellow,
    White,
}

/// What happens when a [`Chat`] is clicked; each variant carries its argument.
#[derive(Debug, PartialEq)]
pub enum ClickEvent {
    OpenUrl(String),
    OpenFile(String),
    RunCommand(String),
    SuggestCommand(String),
    ChangePage(String),
    CopyToClipboard(String),
}

/// The kind of a [`ClickEvent`], without its argument.
#[derive(Clone, Copy, Debug, PartialEq, Eq, Structural)]
pub enum ClickAction {
    OpenUrl,
    OpenFile,
    RunCommand,
    SuggestCommand,
    ChangePage,
    CopyToClipboard,
}

/// The model of a [`ClickEvent`].
pub struct ClickView {
    pub action: ClickAction,
    pub value: Seq<char>,
}

/// What is shown when a player hovers over a [`Chat`] with the mouse.
#[derive(Debug, PartialEq)]
#[allow(inconsistent_fields)]
pub enum HoverEvent {
    ShowText(Box<Chat>),
    ShowItem { id: String, count: Option<i32>, tag: Option<String> },
    /// `id` is the entity's 128-bit UUID.
    ShowEntity { name: Option<Box<Chat>>, entity_type: String, id: u128 },
}

/// The model of a [`HoverEvent`].
#[allow(inconsistent_fields)]
pub enum HoverView {
    ShowText(Box<ChatView>),
    ShowItem { id: Seq<char>, count: Option<i32>, tag: Option<Seq<char>> },
    ShowEntity { name: Option<Box<ChatView>>, entity_type: Seq<char>, id: u128 },
}

/// A text component: plain text, the components displayed after it, and its
/// optional formatting and events. An absent style flag is inherited.
#[derive(Debug, PartialEq)]
pub struct Chat {
    /// The plain text of this component.
    pub text: String,
    /// Components displayed after `text`, in order.
    pub extra: Vec<Chat>,
    pub color: Option<Color>,
    pub bold: Option<bool>,
    pub italic: Option<bool>,
    pub underlined: Option<bool>,
    pub strikethrough: Option<bool>,
    pub obfuscated: Option<bool>,
    pub click_event: Option<ClickEvent>,
    pub hover_event: Option<HoverEvent>,
}

/// The model of a [`Chat`].
pub struct ChatView {
    pub text: Seq<char>,
    pub extra: Seq<ChatView>,
    pub color: Option<Color>,
    pub bold: Option<bool>,
    pub italic: Option<bool>,
    pub underlined: Option<bool>,
    pub strikethrough: Option<bool>,
    pub obfuscated: Option<bool>,
    pub click_event: Option<ClickView>,
    pub hover_event: Option<HoverView>,
}

pub open spec fn click_view(e: ClickEvent) -> ClickView {
    match e {
        ClickEvent::OpenUrl(s) => ClickView { action: ClickAction::OpenUrl, value: s@ },
        ClickEvent::OpenFile(s) => ClickView { action: ClickAction::OpenFile, value: s@ },
        ClickEvent::RunCommand(s) => ClickView { action: ClickAction::RunCommand, value: s@ },
        ClickEvent::SuggestCommand(s) => ClickView {
            action: ClickAction::SuggestCommand,
            value: s@,
        },
        ClickEvent::ChangePage(s) => ClickView { action: ClickAction::ChangePage, value: s@ },
        ClickEvent::CopyToClipboard(s) => ClickView {
            action: ClickAction::CopyToClipboard,
            value: s@,
        },
    }
}

pub open spec fn chat_view(c: Chat) -> ChatView
    decreases c,
{
    ChatView {
        text: c.text@,
        extra: chats_view(c.extra@),
        color: c.color,
        bold: c.bold,
        italic: c.italic,
        underlined: c.underlined,
        strikethrough: c.strikethrough,
        obfuscated: c.obfuscated,
        click_event: match c.click_event {
            Some(e) => Some(click_view(e)),
            None => None,
        },
        hover_event: match c.hover_event {
            Some(h) => Some(hover_view(h)),
            None => None,
        },
    }
}

pub open spec fn chats_view(s: Seq<Chat>) -> Seq<ChatView>
    decreases s,
{
    if s.len() == 0 {
        Seq::empty()
    } else {
        chats_view(s.subrange(0, s.len() - 1)).push(chat_view(s[s.len() - 1]))
    }
}

pub open spec fn hover_view(h: HoverEvent) -> HoverView
    decreases h,
{
    match h {
        HoverEvent::ShowText(c) => HoverView::ShowText(Box::new(chat_view(*c))),
        HoverEvent::ShowItem { id, count, tag } => HoverView::ShowItem {
            id: id@,
            count,
            tag: match tag {
                Some(t) => Some(t@),
                None => None,
            },
        },
        HoverEvent::ShowEntity { name, entity_type, id } => HoverView::ShowEntity {
            name: match name {
                Some(c) => Some(Box::new(chat_view(*c))),
                None => None,
            },
            entity_type: entity_type@,
            id,
        },
    }
}

pub proof fn lemma_chats_view(s: Seq<Chat>)
    ensures
        chats_view(s).len() == s.len(),
        forall|i: int| 0 <= i < s.len() ==> #[trigger] chats_view(s)[i] == chat_view(s[i]),
    decreases s.len(),
{
    if s.len() > 0 {
        lemma_chats_view(s.subrange(0, s.len() - 1));
    }
}

impl View for ClickEvent {
    type V = ClickView;

    open spec fn view(&self) -> ClickView {
        click_view(*self)
    }
}

impl View for HoverEvent {
    type V = HoverView;

    open spec fn view(&self) -> HoverView {
        hover_view(*self)
    }
}

impl View for Chat {
    type V = ChatView;

    open spec fn view(&self) -> ChatView {
        chat_view(*self)
    }
}

/// The model of a component that holds only `text`.
pub open spec fn plain_view(text: Seq<char>) -> ChatView {
    ChatView {
        text,
        extra: Seq::empty(),
        color: None,
        bold: None,
        italic: None,
        underlined: None,
        strikethrough: None,
        obfuscated: None,
        click_event: None,
        hover_event: None,
    }
}

impl Chat {
    /// Appends a component to `extra`.
    pub fn add_extra(&mut self, extra: Chat) -> (r: &mut Chat)
        ensures
            r@ == (ChatView { extra: old(self)@.extra.push(extra@), ..old(self)@ }),
            *final(self) == *final(r),
    {
        self.extra.push(extra);
        proof {
            let s = self.extra@;
            assert(s.subrange(0, s.len() - 1) =~= old(self).extra@);
        }
        self
    }

    /// Replaces `extra` with the given components.
    pub fn set_extras(&mut self, extras: Vec<Chat>) -> (r: &mut Chat)
        ensures
            r@ == (ChatView { extra: chats_view(extras@), ..old(self)@ }),
            *final(self) == *final(r),
    {
        self.extra = extras;
        self
    }

    /// Sets the text color.
    pub fn color(&mut self, color: Color) -> (r: &mut Chat)
        ensures
            r@ == (ChatView { color: Some(color), ..old(self)@ }),
            *final(self) == *final(r),
    {
        self.color = Some(color);
        self
    }

    /// Turns boldface on.
    pub fn bold(&mut self) -> (r: &mut Chat)
        ensures
            r@ == (ChatView { bold: Some(true), ..old(self)@ }),
            *final(self) == *final(r),
    {
        self.bold = Some(true);
        self
    }

    /// Turns boldface off.
    pub fn no_bold(&mut self) -> (r: &mut Chat)
        ensures
            r@ == (ChatView { bold: Some(false), ..old(self)@ }),
            *final(self) == *final(r),
    {
        self.bold = Some(false);
        self
    }

    /// Turns italics on.
    pub fn italic(&mut self) -> (r: &mut Chat)
        ensures
            r@ == (ChatView { italic: Some(true), ..old(self)@ }),
            *final(self) == *final(r),
    {
        self.italic = Some(true);
        self
    }

    /// Turns italics off.
    pub fn no_italic(&mut self) -> (r: &mut Chat)
        ensures
            r@ == (ChatView { italic: Some(false), ..old(self)@ }),
            *final(self) == *final(r),
    {
        self.italic = Some(false);
        self
    }

    /// Turns underlining on.
    pub fn underlined(&mut self) -> (r: &mut Chat)
        ensures
            r@ == (ChatView { underlined: Some(true), ..old(self)@ }),
            *final(self) == *final(r),
    {
        self.underlined = Some(true);
        self
    }

    /// Turns underlining off.
    pub fn no_underlined(&mut self) -> (r: &mut Chat)
        ensures
            r@ == (ChatView { underlined: Some(false), ..old(self)@ }),
            *final(self) == *final(r),
    {
        self.underlined = Some(false);
        self
    }

    /// Turns strike-through on.
    pub fn strikethrough(&mut self) -> (r: &mut Chat)
        ensures
            r@ == (ChatView { strikethrough: Some(true), ..old(self)@ }),
            *final(self) == *final(r),
    {
        self.strikethrough = Some(true);
        self
    }

    /// Turns strike-through off.
    pub fn no_strikethrough(&mut self) -> (r: &mut Chat)
        ensures
            r@ == (ChatView { strikethrough: Some(false), ..old(self)@ }),
            *final(self) == *final(r),
    {
        self.strikethrough = Some(false);
        self
    }

    /// Turns obfuscation on: characters are replaced at random by others of the same width.
    pub fn obfuscated(&mut self) -> (r: &mut Chat)
        ensures
            r@ == (ChatView { obfuscated: Some(true), ..old(self)@ }),
            *final(self) == *final(r),
    {
        self.obfuscated = Some(true);
        self
    }

    /// Turns obfuscation off.
    pub fn no_obfuscated(&mut self) -> (r: &mut Chat)
        ensures
            r@ == (ChatView { obfuscated: Some(false), ..old(self)@ }),
            *final(self) == *final(r),
    {
        self.obfuscated = Some(false);
        self
    }

    /// Sets the event of a click, replacing any earlier one.
    pub fn on_click(&mut self, event: ClickEvent) -> (r: &mut Chat)
        ensures
            r@ == (ChatView { click_event: Some(event@), ..old(self)@ }),
            *final(self) == *final(r),
    {
        self.click_event = Some(event);
        self
    }

    /// Sets the event of hovering, replacing any earlier one.
    pub fn on_hover(&mut self, event: HoverEvent) -> (r: &mut Chat)
        ensures
            r@ == (ChatView { hover_event: Some(event@), ..old(self)@ }),
            *final(self) == *final(r),
    {
        self.hover_event = Some(event);
        self
    }
}

impl Default for Chat {
    /// An empty component: no text, no `extra`, nothing set.
    fn default() -> (r: Chat)
        ensures
            r@ == plain_view(Seq::empty()),
    {
        Chat::from(String::new())
    }
}

impl From<String> for Chat {
    /// A component that holds only the given text.
    fn from(text: String) -> (r: Chat)
        ensures
            r@ == plain_view(text@),
    {
        let r = Chat {
            text,
            extra: Vec::new(),
            color: None,
            bold: None,
            italic: None,
            underlined: None,
            strikethrough: None,
            obfuscated: None,
            click_event: None,
            hover_event: None,
        };
        proof {
            assert(chats_view(r.extra@) =~= Seq::empty());
        }
        r
    }
}

// `from` states its result through the model in its own `ensures`; there
// is no spec-level constructor of a `Chat` to state it here.
impl vstd::std_specs::convert::FromSpecImpl<String> for Chat {
    open spec fn obeys_from_spec() -> bool {
        false
    }

    open spec fn from_spec(text: String) -> Chat {
        arbitrary()
    }
}

} // verus!
