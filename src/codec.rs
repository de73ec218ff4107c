//! The mapping between [`Chat`] messages and [`Json`] value trees.
//!
//! Multi-word fields are written in camelCase; absent optional fields and an
//! empty `extra` are left out. Click and hover events are objects with an
//! `action` discriminator beside their payload (`value`, or `contents`).
//! Reading a message rejects object members it does not know.
use vstd::arithmetic::power::pow;
use vstd::prelude::*;
use crate::chat::{
    chat_view, chats_view, lemma_chats_view, plain_view, Chat, ChatView, ClickAction, ClickEvent, ClickView,
    Color, HoverEvent, HoverView,
};
use crate::json::{
    json_view, jsons_view, lemma_jsons_view, lemma_jsons_view_push, lemma_members_view,
    lemma_members_view_push, members_view, Json, JsonV,
};

verus! {

/// Why a [`Json`] value does not describe a message.
#[derive(Clone, Copy, Debug, PartialEq, Eq, Structural)]
pub enum DecodeError {
    /// A message object holds a member that is not one of its fields.
    UnknownField,
    /// A value, or a required member, does not have the expected shape.
    TypeMismatch,
    /// The `action` of a click or hover event names no known event.
    InvalidDiscriminator,
}

pub type Members = Seq<(Seq<char>, JsonV)>;

// ---------------------------------------------------------------- names

/// The lowercase hexadecimal digit of `n`, where `0 <= n < 16`.
pub open spec fn hex_lower(n: int) -> char {
    seq!['0', '1', '2', '3', '4', '5', '6', '7', '8', '9', 'a', 'b', 'c', 'd', 'e', 'f'][n]
}

/// The `k`-th hexadecimal digit of `id`, most significant first.
pub open spec fn uuid_nibble(id: u128, k: int) -> int {
    (id as int / pow(16, (31 - k) as nat)) % 16
}

/// How many hyphens come before position `i` of a hyphenated UUID.
pub open spec fn hyphens_before(i: int) -> int {
    if i < 8 {
        0
    } else if i < 13 {
        1
    } else if i < 18 {
        2
    } else if i < 23 {
        3
    } else {
        4
    }
}

/// The hyphenated lowercase text of a UUID: its 32 hexadecimal digits in
/// groups of 8, 4, 4, 4 and 12, joined by hyphens.
pub open spec fn uuid_hyphenated(id: u128) -> Seq<char> {
    Seq::new(
        36,
        |i: int|
            if i == 8 || i == 13 || i == 18 || i == 23 {
                '-'
            } else {
                hex_lower(uuid_nibble(id, i - hyphens_before(i)))
            },
    )
}

/// The UUID that a text denotes, if any.
pub uninterp spec fn uuid_parsed(s: Seq<char>) -> Option<u128>;

/// Relies on uuid's `Uuid::hyphenated` formatting (lowercase digits, most
/// significant first), and on `Uuid::parse_str` reading that form back to
/// the same value.
#[verifier::external_body]
fn uuid_to_text(id: u128) -> (r: String)
    ensures
        r@ == uuid_hyphenated(id),
        uuid_parsed(r@) == Some(id),
{
    uuid::Uuid::from_u128(id).hyphenated().to_string()
}

/// Relies on uuid's `Uuid::parse_str`: the UUID that a text denotes, in any
/// of the forms that function accepts.
#[verifier::external_body]
fn uuid_from_text(s: &String) -> (r: Option<u128>)
    ensures
        r == uuid_parsed(s@),
{
    match uuid::Uuid::parse_str(s) {
        Ok(u) => Some(u.as_u128()),
        Err(_) => None,
    }
}

pub open spec fn color_name(c: Color) -> Seq<char> {
    match c {
        Color::Black => "black"@,
        Color::DarkBlue => "dark_blue"@,
        Color::DarkGreen => "dark_green"@,
        Color::DarkAqua => "dark_aqua"@,
        Color::DarkRed => "dark_red"@,
        Color::DarkPurple => "dark_purple"@,
        Color::Gold => "gold"@,
        Color::Gray => "gray"@,
        Color::DarkGray => "dark_gray"@,
        Color::Blue => "blue"@,
        Color::Green => "green"@,
        Color::Aqua => "aqua"@,
        Color::Red => "red"@,
        Color::LightPurple => "light_purple"@,
        Color::Yellow => "yellow"@,
        Color::White => "white"@,
    }
}

/// The color with the given name, if any.
pub open spec fn color_named(s: Seq<char>) -> Option<Color> {
    if s == "black"@ { Some(Color::Black) }
    else if s == "dark_blue"@ { Some(Color::DarkBlue) }
    else if s == "dark_green"@ { Some(Color::DarkGreen) }
    else if s == "dark_aqua"@ { Some(Color::DarkAqua) }
    else if s == "dark_red"@ { Some(Color::DarkRed) }
    else if s == "dark_purple"@ { Some(Color::DarkPurple) }
    else if s == "gold"@ { Some(Color::Gold) }
    else if s == "gray"@ { Some(Color::Gray) }
    else if s == "dark_gray"@ { Some(Color::DarkGray) }
    else if s == "blue"@ { Some(Color::Blue) }
    else if s == "green"@ { Some(Color::Green) }
    else if s == "aqua"@ { Some(Color::Aqua) }
    else if s == "red"@ { Some(Color::Red) }
    else if s == "light_purple"@ { Some(Color::LightPurple) }
    else if s == "yellow"@ { Some(Color::Yellow) }
    else if s == "white"@ { Some(Color::White) }
    else { None }
}

pub open spec fn click_name(a: ClickAction) -> Seq<char> {
    match a {
        ClickAction::OpenUrl => "open_url"@,
        ClickAction::OpenFile => "open_file"@,
        ClickAction::RunCommand => "run_command"@,
        ClickAction::SuggestCommand => "suggest_command"@,
        ClickAction::ChangePage => "change_page"@,
        ClickAction::CopyToClipboard => "copy_to_clipboard"@,
    }
}

/// The click action with the given name, if any.
pub open spec fn click_named(s: Seq<char>) -> Option<ClickAction> {
    if s == "open_url"@ { Some(ClickAction::OpenUrl) }
    else if s == "open_file"@ { Some(ClickAction::OpenFile) }
    else if s == "run_command"@ { Some(ClickAction::RunCommand) }
    else if s == "suggest_command"@ { Some(ClickAction::SuggestCommand) }
    else if s == "change_page"@ { Some(ClickAction::ChangePage) }
    else if s == "copy_to_clipboard"@ { Some(ClickAction::CopyToClipboard) }
    else { None }
}

/// The members that a message object may hold.
pub open spec fn is_chat_key(k: Seq<char>) -> bool {
    k == "text"@ || k == "extra"@ || k == "color"@ || k == "bold"@ || k == "italic"@
        || k == "underlined"@ || k == "strikethrough"@ || k == "obfuscated"@
        || k == "clickEvent"@ || k == "hoverEvent"@
}

// ---------------------------------------------------------------- members

/// The index of the first member named `k`, or -1 where there is none.
pub open spec fn key_index(ms: Members, k: Seq<char>) -> int
    decreases ms.len(),
{
    if ms.len() == 0 {
        -1
    } else {
        let p = key_index(ms.drop_last(), k);
        if p >= 0 {
            p
        } else if ms.last().0 == k {
            ms.len() - 1
        } else {
            -1
        }
    }
}

/// The value of the first member named `k`.
pub open spec fn field(ms: Members, k: Seq<char>) -> Option<JsonV> {
    let i = key_index(ms, k);
    if 0 <= i < ms.len() {
        Some(ms[i].1)
    } else {
        None
    }
}

/// `ms` with a member `k` added at the end, where `v` holds a value.
pub open spec fn push_opt(ms: Members, k: Seq<char>, v: Option<JsonV>) -> Members {
    match v {
        Some(v) => ms.push((k, v)),
        None => ms,
    }
}

pub proof fn lemma_key_index(ms: Members, k: Seq<char>)
    ensures
        -1 <= key_index(ms, k) < ms.len(),
        key_index(ms, k) >= 0 ==> ms[key_index(ms, k)].0 == k,
        forall|j: int| 0 <= j < ms.len() && j < key_index(ms, k) ==> ms[j].0 != k,
        key_index(ms, k) == -1 ==> forall|j: int| 0 <= j < ms.len() ==> ms[j].0 != k,
    decreases ms.len(),
{
    if ms.len() > 0 {
        lemma_key_index(ms.drop_last(), k);
        assert(forall|j: int| 0 <= j < ms.len() - 1 ==> ms.drop_last()[j] == #[trigger] ms[j]);
    }
}

pub proof fn lemma_key_index_push(ms: Members, m: (Seq<char>, JsonV))
    ensures
        forall|k: Seq<char>|
            #[trigger] key_index(ms.push(m), k) == if key_index(ms, k) >= 0 {
                key_index(ms, k)
            } else if m.0 == k {
                ms.len() as int
            } else {
                -1
            },
{
    assert(ms.push(m).drop_last() =~= ms);
}

pub proof fn lemma_push_opt(ms: Members, k: Seq<char>, v: Option<JsonV>)
    ensures
        forall|kk: Seq<char>|
            #[trigger] key_index(push_opt(ms, k, v), kk) == if key_index(ms, kk) >= 0 {
                key_index(ms, kk)
            } else if v is Some && k == kk {
                ms.len() as int
            } else {
                -1
            },
        forall|i: int| 0 <= i < ms.len() ==> #[trigger] push_opt(ms, k, v)[i] == ms[i],
        v is Some ==> push_opt(ms, k, v).len() == ms.len() + 1 && push_opt(ms, k, v)[ms.len() as int] == (k, v->Some_0),
        v is None ==> push_opt(ms, k, v) == ms,
{
    if let Some(x) = v {
        lemma_key_index_push(ms, (k, x));
    }
}

/// Every member of `ms` is a field of a message.
pub open spec fn chat_keys(ms: Members) -> bool {
    forall|j: int| 0 <= j < ms.len() ==> is_chat_key(#[trigger] ms[j].0)
}

// ---------------------------------------------------------------- encoding

pub open spec fn flag_json(b: Option<bool>) -> Option<JsonV> {
    match b {
        Some(b) => Some(JsonV::Bool(b)),
        None => None,
    }
}

pub open spec fn click_json(e: ClickView) -> JsonV {
    JsonV::Object(
        seq![("action"@, JsonV::Str(click_name(e.action))), ("value"@, JsonV::Str(e.value))],
    )
}

pub open spec fn chat_json(c: ChatView) -> JsonV
    decreases c,
{
    let ms = seq![("text"@, JsonV::Str(c.text))];
    let ms = if c.extra.len() > 0 {
        ms.push(("extra"@, JsonV::Array(chats_json(c.extra))))
    } else {
        ms
    };
    let ms = push_opt(
        ms,
        "color"@,
        match c.color {
            Some(col) => Some(JsonV::Str(color_name(col))),
            None => None,
        },
    );
    let ms = push_opt(ms, "bold"@, flag_json(c.bold));
    let ms = push_opt(ms, "italic"@, flag_json(c.italic));
    let ms = push_opt(ms, "underlined"@, flag_json(c.underlined));
    let ms = push_opt(ms, "strikethrough"@, flag_json(c.strikethrough));
    let ms = push_opt(ms, "obfuscated"@, flag_json(c.obfuscated));
    let ms = push_opt(
        ms,
        "clickEvent"@,
        match c.click_event {
            Some(e) => Some(click_json(e)),
            None => None,
        },
    );
    let ms = push_opt(
        ms,
        "hoverEvent"@,
        match c.hover_event {
            Some(h) => Some(hover_json(h)),
            None => None,
        },
    );
    JsonV::Object(ms)
}

pub open spec fn chats_json(s: Seq<ChatView>) -> Seq<JsonV>
    decreases s,
{
    if s.len() == 0 {
        Seq::empty()
    } else {
        chats_json(s.subrange(0, s.len() - 1)).push(chat_json(s[s.len() - 1]))
    }
}

pub open spec fn hover_json(h: HoverView) -> JsonV
    decreases h,
{
    let (action, contents) = match h {
        HoverView::ShowText(c) => ("show_text"@, chat_json(*c)),
        HoverView::ShowItem { id, count, tag } => (
            "show_item"@,
            JsonV::Object(
                push_opt(
                    push_opt(
                        seq![("id"@, JsonV::Str(id))],
                        "count"@,
                        match count {
                            Some(n) => Some(JsonV::Int(n as int)),
                            None => None,
                        },
                    ),
                    "tag"@,
                    match tag {
                        Some(t) => Some(JsonV::Str(t)),
                        None => None,
                    },
                ),
            ),
        ),
        HoverView::ShowEntity { name, entity_type, id } => (
            "show_entity"@,
            JsonV::Object(
                push_opt(
                    Seq::empty(),
                    "name"@,
                    match name {
                        Some(c) => Some(chat_json(*c)),
                        None => None,
                    },
                ).push(("type"@, JsonV::Str(entity_type))).push(
                    ("id"@, JsonV::Str(uuid_hyphenated(id))),
                ),
            ),
        ),
    };
    JsonV::Object(seq![("action"@, JsonV::Str(action)), ("contents"@, contents)])
}

// ---------------------------------------------------------------- decoding

pub open spec fn decode_flag(v: Option<JsonV>) -> Result<Option<bool>, DecodeError> {
    match v {
        None => Ok(None),
        Some(JsonV::Null) => Ok(None),
        Some(JsonV::Bool(b)) => Ok(Some(b)),
        Some(_) => Err(DecodeError::TypeMismatch),
    }
}

pub open spec fn decode_color(v: Option<JsonV>) -> Result<Option<Color>, DecodeError> {
    match v {
        None => Ok(None),
        Some(JsonV::Null) => Ok(None),
        Some(JsonV::Str(s)) => match color_named(s) {
            Some(c) => Ok(Some(c)),
            None => Err(DecodeError::TypeMismatch),
        },
        Some(_) => Err(DecodeError::TypeMismatch),
    }
}

/// A string member that must be present.
pub open spec fn decode_str(v: Option<JsonV>) -> Result<Seq<char>, DecodeError> {
    match v {
        Some(JsonV::Str(s)) => Ok(s),
        _ => Err(DecodeError::TypeMismatch),
    }
}

pub open spec fn decode_opt_str(v: Option<JsonV>) -> Result<Option<Seq<char>>, DecodeError> {
    match v {
        None => Ok(None),
        Some(JsonV::Null) => Ok(None),
        Some(JsonV::Str(s)) => Ok(Some(s)),
        Some(_) => Err(DecodeError::TypeMismatch),
    }
}

pub open spec fn decode_count(v: Option<JsonV>) -> Result<Option<i32>, DecodeError> {
    match v {
        None => Ok(None),
        Some(JsonV::Null) => Ok(None),
        Some(JsonV::Int(n)) => if i32::MIN <= n <= i32::MAX {
            Ok(Some(n as i32))
        } else {
            Err(DecodeError::TypeMismatch)
        },
        Some(_) => Err(DecodeError::TypeMismatch),
    }
}

pub open spec fn decode_click(v: JsonV) -> Result<ClickView, DecodeError> {
    match v {
        JsonV::Object(ms) => match field(ms, "action"@) {
            Some(JsonV::Str(a)) => match click_named(a) {
                Some(action) => match decode_str(field(ms, "value"@)) {
                    Ok(value) => Ok(ClickView { action, value }),
                    Err(e) => Err(e),
                },
                None => Err(DecodeError::InvalidDiscriminator),
            },
            _ => Err(DecodeError::TypeMismatch),
        },
        _ => Err(DecodeError::TypeMismatch),
    }
}

pub open spec fn decode_opt_click(v: Option<JsonV>) -> Result<Option<ClickView>, DecodeError> {
    match v {
        None => Ok(None),
        Some(JsonV::Null) => Ok(None),
        Some(v) => match decode_click(v) {
            Ok(e) => Ok(Some(e)),
            Err(e) => Err(e),
        },
    }
}

pub open spec fn decode_item(v: JsonV) -> Result<HoverView, DecodeError> {
    match v {
        JsonV::Object(ms) => {
            let id = decode_str(field(ms, "id"@));
            let count = decode_count(field(ms, "count"@));
            let tag = decode_opt_str(field(ms, "tag"@));
            if id is Err {
                Err(id->Err_0)
            } else if count is Err {
                Err(count->Err_0)
            } else if tag is Err {
                Err(tag->Err_0)
            } else {
                Ok(HoverView::ShowItem { id: id->Ok_0, count: count->Ok_0, tag: tag->Ok_0 })
            }
        },
        _ => Err(DecodeError::TypeMismatch),
    }
}

pub open spec fn decode_uuid(v: Option<JsonV>) -> Result<u128, DecodeError> {
    match v {
        Some(JsonV::Str(s)) => match uuid_parsed(s) {
            Some(id) => Ok(id),
            None => Err(DecodeError::TypeMismatch),
        },
        _ => Err(DecodeError::TypeMismatch),
    }
}

pub open spec fn decode_entity(v: JsonV) -> Result<HoverView, DecodeError>
    decreases v,
{
    match v {
        JsonV::Object(ms) => {
            let i = key_index(ms, "name"@);
            let name = if 0 <= i < ms.len() {
                match ms[i].1 {
                    JsonV::Null => Ok(None),
                    _ => match decode_chat(ms[i].1) {
                        Ok(c) => Ok(Some(Box::new(c))),
                        Err(e) => Err(e),
                    },
                }
            } else {
                Ok(None)
            };
            let entity_type = decode_str(field(ms, "type"@));
            let id = decode_uuid(field(ms, "id"@));
            if name is Err {
                Err(name->Err_0)
            } else if entity_type is Err {
                Err(entity_type->Err_0)
            } else if id is Err {
                Err(id->Err_0)
            } else {
                Ok(
                    HoverView::ShowEntity {
                        name: name->Ok_0,
                        entity_type: entity_type->Ok_0,
                        id: id->Ok_0,
                    },
                )
            }
        },
        _ => Err(DecodeError::TypeMismatch),
    }
}

pub open spec fn is_hover_name(a: Seq<char>) -> bool {
    a == "show_text"@ || a == "show_item"@ || a == "show_entity"@
}

pub open spec fn decode_hover(v: JsonV) -> Result<HoverView, DecodeError>
    decreases v,
{
    match v {
        JsonV::Object(ms) => match field(ms, "action"@) {
            Some(JsonV::Str(a)) => if !is_hover_name(a) {
                Err(DecodeError::InvalidDiscriminator)
            } else {
                let i = key_index(ms, "contents"@);
                if 0 <= i < ms.len() {
                    if a == "show_text"@ {
                        match decode_chat(ms[i].1) {
                            Ok(c) => Ok(HoverView::ShowText(Box::new(c))),
                            Err(e) => Err(e),
                        }
                    } else if a == "show_item"@ {
                        decode_item(ms[i].1)
                    } else {
                        decode_entity(ms[i].1)
                    }
                } else {
                    Err(DecodeError::TypeMismatch)
                }
            },
            _ => Err(DecodeError::TypeMismatch),
        },
        _ => Err(DecodeError::TypeMismatch),
    }
}

/// The message that a JSON value describes, or why it describes none.
pub open spec fn decode_chat(v: JsonV) -> Result<ChatView, DecodeError>
    decreases v,
{
    match v {
        JsonV::Object(ms) => if !(forall|j: int| 0 <= j < ms.len() ==> is_chat_key(#[trigger] ms[j].0)) {
            Err(DecodeError::UnknownField)
        } else {
            let text = decode_str(field(ms, "text"@));
            let ie = key_index(ms, "extra"@);
            let extra = if 0 <= ie < ms.len() {
                match ms[ie].1 {
                    JsonV::Array(a) => decode_chats(a),
                    _ => Err(DecodeError::TypeMismatch),
                }
            } else {
                Ok(Seq::empty())
            };
            let color = decode_color(field(ms, "color"@));
            let bold = decode_flag(field(ms, "bold"@));
            let italic = decode_flag(field(ms, "italic"@));
            let underlined = decode_flag(field(ms, "underlined"@));
            let strikethrough = decode_flag(field(ms, "strikethrough"@));
            let obfuscated = decode_flag(field(ms, "obfuscated"@));
            let click_event = decode_opt_click(field(ms, "clickEvent"@));
            let ih = key_index(ms, "hoverEvent"@);
            let hover_event = if 0 <= ih < ms.len() {
                match ms[ih].1 {
                    JsonV::Null => Ok(None),
                    _ => match decode_hover(ms[ih].1) {
                        Ok(h) => Ok(Some(h)),
                        Err(e) => Err(e),
                    },
                }
            } else {
                Ok(None)
            };
            if text is Err {
                Err(text->Err_0)
            } else if extra is Err {
                Err(extra->Err_0)
            } else if color is Err {
                Err(color->Err_0)
            } else if bold is Err {
                Err(bold->Err_0)
            } else if italic is Err {
                Err(italic->Err_0)
            } else if underlined is Err {
                Err(underlined->Err_0)
            } else if strikethrough is Err {
                Err(strikethrough->Err_0)
            } else if obfuscated is Err {
                Err(obfuscated->Err_0)
            } else if click_event is Err {
                Err(click_event->Err_0)
            } else if hover_event is Err {
                Err(hover_event->Err_0)
            } else {
                Ok(
                    ChatView {
                        text: text->Ok_0,
                        extra: extra->Ok_0,
                        color: color->Ok_0,
                        bold: bold->Ok_0,
                        italic: italic->Ok_0,
                        underlined: underlined->Ok_0,
                        strikethrough: strikethrough->Ok_0,
                        obfuscated: obfuscated->Ok_0,
                        click_event: click_event->Ok_0,
                        hover_event: hover_event->Ok_0,
                    },
                )
            }
        },
        _ => Err(DecodeError::TypeMismatch),
    }
}

/// The messages that a sequence of JSON values describes, or the error of
/// the first that describes none.
pub open spec fn decode_chats(s: Seq<JsonV>) -> Result<Seq<ChatView>, DecodeError>
    decreases s,
{
    if s.len() == 0 {
        Ok(Seq::empty())
    } else {
        match decode_chats(s.subrange(0, s.len() - 1)) {
            Err(e) => Err(e),
            Ok(p) => match decode_chat(s[s.len() - 1]) {
                Err(e) => Err(e),
                Ok(c) => Ok(p.push(c)),
            },
        }
    }
}

// ---------------------------------------------------------------- writing

fn color_text(c: Color) -> (r: String)
    ensures
        r@ == color_name(c),
{
    match c {
        Color::Black => String::from_str("black"),
        Color::DarkBlue => String::from_str("dark_blue"),
        Color::DarkGreen => String::from_str("dark_green"),
        Color::DarkAqua => String::from_str("dark_aqua"),
        Color::DarkRed => String::from_str("dark_red"),
        Color::DarkPurple => String::from_str("dark_purple"),
        Color::Gold => String::from_str("gold"),
        Color::Gray => String::from_str("gray"),
        Color::DarkGray => String::from_str("dark_gray"),
        Color::Blue => String::from_str("blue"),
        Color::Green => String::from_str("green"),
        Color::Aqua => String::from_str("aqua"),
        Color::Red => String::from_str("red"),
        Color::LightPurple => String::from_str("light_purple"),
        Color::Yellow => String::from_str("yellow"),
        Color::White => String::from_str("white"),
    }
}

fn push_member(ms: &mut Vec<(String, Json)>, k: &str, v: Json)
    ensures
        members_view(final(ms)@) == members_view(old(ms)@).push((k@, v@)),
{
    let key = String::from_str(k);
    proof {
        lemma_members_view_push(ms@, (key, v));
    }
    ms.push((key, v));
}

fn push_flag(ms: &mut Vec<(String, Json)>, k: &str, b: Option<bool>)
    ensures
        members_view(final(ms)@) == push_opt(members_view(old(ms)@), k@, flag_json(b)),
{
    if let Some(b) = b {
        push_member(ms, k, Json::Bool(b));
    }
}

impl ClickEvent {
    /// The `action` name and `value` of this event.
    fn parts(&self) -> (r: (String, String))
        ensures
            r.0@ == click_name(self@.action),
            r.1@ == self@.value,
    {
        match self {
            ClickEvent::OpenUrl(s) => (String::from_str("open_url"), s.clone()),
            ClickEvent::OpenFile(s) => (String::from_str("open_file"), s.clone()),
            ClickEvent::RunCommand(s) => (String::from_str("run_command"), s.clone()),
            ClickEvent::SuggestCommand(s) => (String::from_str("suggest_command"), s.clone()),
            ClickEvent::ChangePage(s) => (String::from_str("change_page"), s.clone()),
            ClickEvent::CopyToClipboard(s) => (String::from_str("copy_to_clipboard"), s.clone()),
        }
    }

    /// This event as a JSON object: its `action` name and its `value`.
    pub fn to_json(&self) -> (r: Json)
        ensures
            r@ == click_json(self@),
            decode_click(r@) == Ok::<ClickView, DecodeError>(self@),
    {
        let (action, value) = self.parts();
        let mut ms: Vec<(String, Json)> = Vec::new();
        proof {
            assert(members_view(ms@) =~= Seq::empty());
        }
        push_member(&mut ms, "action", Json::Str(action));
        push_member(&mut ms, "value", Json::Str(value));
        let r = Json::Object(ms);
        proof {
            assert(members_view(ms@) =~= seq![("action"@, JsonV::Str(click_name(self@.action))), ("value"@, JsonV::Str(self@.value))]);
            lemma_click_round_trip(self@);
        }
        r
    }
}

impl HoverEvent {
    /// This event as a JSON object: its `action` name and its `contents`.
    pub fn to_json(&self) -> (r: Json)
        ensures
            r@ == hover_json(self@),
            decode_hover(r@) == Ok::<HoverView, DecodeError>(self@),
        decreases self,
    {
        let mut ms: Vec<(String, Json)> = Vec::new();
        proof {
            assert(members_view(ms@) =~= Seq::empty());
        }
        let contents = match self {
            HoverEvent::ShowText(c) => {
                push_member(&mut ms, "action", Json::Str(String::from_str("show_text")));
                c.to_json()
            },
            HoverEvent::ShowItem { id, count, tag } => {
                push_member(&mut ms, "action", Json::Str(String::from_str("show_item")));
                let mut cs: Vec<(String, Json)> = Vec::new();
                proof {
                    assert(members_view(cs@) =~= Seq::empty());
                }
                push_member(&mut cs, "id", Json::Str(id.clone()));
                proof {
                    assert(members_view(cs@) =~= seq![("id"@, JsonV::Str(id@))]);
                }
                if let Some(n) = count {
                    push_member(&mut cs, "count", Json::Int(*n as i128));
                }
                if let Some(t) = tag {
                    push_member(&mut cs, "tag", Json::Str(t.clone()));
                }
                Json::Object(cs)
            },
            HoverEvent::ShowEntity { name, entity_type, id } => {
                push_member(&mut ms, "action", Json::Str(String::from_str("show_entity")));
                let mut cs: Vec<(String, Json)> = Vec::new();
                proof {
                    assert(members_view(cs@) =~= Seq::empty());
                }
                if let Some(c) = name {
                    push_member(&mut cs, "name", c.to_json());
                }
                push_member(&mut cs, "type", Json::Str(entity_type.clone()));
                let id_text = uuid_to_text(*id);
                push_member(&mut cs, "id", Json::Str(id_text));
                Json::Object(cs)
            },
        };
        push_member(&mut ms, "contents", contents);
        let r = Json::Object(ms);
        proof {
            let action = match self@ {
                HoverView::ShowText(_) => "show_text"@,
                HoverView::ShowItem { .. } => "show_item"@,
                HoverView::ShowEntity { .. } => "show_entity"@,
            };
            assert(members_view(ms@) =~= seq![("action"@, JsonV::Str(action)), ("contents"@, contents@)]);
            lemma_hover_round_trip(self@);
        }
        r
    }
}

impl Chat {
    /// This message as a JSON object. Absent optional fields, and an empty
    /// `extra`, are left out.
    pub fn to_json(&self) -> (r: Json)
        ensures
            r@ == chat_json(self@),
            decode_chat(r@) == Ok::<ChatView, DecodeError>(self@),
        decreases self,
    {
        let mut ms: Vec<(String, Json)> = Vec::new();
        proof {
            assert(members_view(ms@) =~= Seq::empty());
        }
        push_member(&mut ms, "text", Json::Str(self.text.clone()));
        proof {
            assert(members_view(ms@) =~= seq![("text"@, JsonV::Str(self.text@))]);
        }
        let n = self.extra.len();
        if n > 0 {
            let mut a: Vec<Json> = Vec::new();
            let mut i: usize = 0;
            proof {
                assert(jsons_view(a@) =~= Seq::<JsonV>::empty());
                assert(chats_view(self.extra@).subrange(0, 0) =~= Seq::<ChatView>::empty());
            }
            while i < n
                invariant
                    n == self.extra.len(),
                    i <= n,
                    jsons_view(a@) == chats_json(chats_view(self.extra@).subrange(0, i as int)),
                    decode_chats(jsons_view(a@)) == Ok::<Seq<ChatView>, DecodeError>(
                        chats_view(self.extra@).subrange(0, i as int),
                    ),
                decreases n - i,
            {
                let j = self.extra[i].to_json();
                proof {
                    lemma_jsons_view_push(a@, j);
                    lemma_chats_view(self.extra@);
                    let cv = chats_view(self.extra@);
                    assert(cv.subrange(0, i + 1).subrange(0, i as int) =~= cv.subrange(0, i as int));
                    let jv = jsons_view(a@).push(j@);
                    assert(jv.subrange(0, jv.len() - 1) =~= jsons_view(a@));
                    assert(cv.subrange(0, i as int).push(cv[i as int]) =~= cv.subrange(0, i + 1));
                }
                a.push(j);
                i = i + 1;
            }
            proof {
                lemma_chats_view(self.extra@);
                assert(chats_view(self.extra@).subrange(0, n as int) =~= chats_view(self.extra@));
            }
            push_member(&mut ms, "extra", Json::Array(a));
        }
        proof {
            lemma_chats_view(self.extra@);
            if n == 0 {
                assert(chats_view(self.extra@) =~= Seq::<ChatView>::empty());
            }
        }
        if let Some(c) = self.color {
            push_member(&mut ms, "color", Json::Str(color_text(c)));
        }
        push_flag(&mut ms, "bold", self.bold);
        push_flag(&mut ms, "italic", self.italic);
        push_flag(&mut ms, "underlined", self.underlined);
        push_flag(&mut ms, "strikethrough", self.strikethrough);
        push_flag(&mut ms, "obfuscated", self.obfuscated);
        if let Some(e) = &self.click_event {
            push_member(&mut ms, "clickEvent", e.to_json());
        }
        if let Some(h) = &self.hover_event {
            push_member(&mut ms, "hoverEvent", h.to_json());
        }
        proof {
            lemma_chat_round_trip(self@);
        }
        Json::Object(ms)
    }
}

// ---------------------------------------------------------------- reading back

proof fn lemma_keys_distinct()
    ensures
        "text"@ != "extra"@, "text"@ != "color"@, "text"@ != "bold"@, "text"@ != "italic"@,
        "text"@ != "underlined"@, "text"@ != "strikethrough"@, "text"@ != "obfuscated"@,
        "text"@ != "clickEvent"@, "text"@ != "hoverEvent"@,
        "extra"@ != "color"@, "extra"@ != "bold"@, "extra"@ != "italic"@,
        "extra"@ != "underlined"@, "extra"@ != "strikethrough"@, "extra"@ != "obfuscated"@,
        "extra"@ != "clickEvent"@, "extra"@ != "hoverEvent"@,
        "color"@ != "bold"@, "color"@ != "italic"@, "color"@ != "underlined"@,
        "color"@ != "strikethrough"@, "color"@ != "obfuscated"@, "color"@ != "clickEvent"@,
        "color"@ != "hoverEvent"@,
        "bold"@ != "italic"@, "bold"@ != "underlined"@, "bold"@ != "strikethrough"@,
        "bold"@ != "obfuscated"@, "bold"@ != "clickEvent"@, "bold"@ != "hoverEvent"@,
        "italic"@ != "underlined"@, "italic"@ != "strikethrough"@, "italic"@ != "obfuscated"@,
        "italic"@ != "clickEvent"@, "italic"@ != "hoverEvent"@,
        "underlined"@ != "strikethrough"@, "underlined"@ != "obfuscated"@,
        "underlined"@ != "clickEvent"@, "underlined"@ != "hoverEvent"@,
        "strikethrough"@ != "obfuscated"@, "strikethrough"@ != "clickEvent"@,
        "strikethrough"@ != "hoverEvent"@,
        "obfuscated"@ != "clickEvent"@, "obfuscated"@ != "hoverEvent"@,
        "clickEvent"@ != "hoverEvent"@,
        "action"@ != "value"@, "action"@ != "contents"@,
        "id"@ != "count"@, "id"@ != "tag"@, "count"@ != "tag"@,
        "name"@ != "type"@, "name"@ != "id"@, "type"@ != "id"@,
        "show_text"@ != "show_item"@, "show_text"@ != "show_entity"@,
        "show_item"@ != "show_entity"@,
{
    reveal_strlit("text");
    assert("text"@ =~= seq!['t', 'e', 'x', 't']);
    reveal_strlit("extra");
    assert("extra"@ =~= seq!['e', 'x', 't', 'r', 'a']);
    reveal_strlit("color");
    assert("color"@ =~= seq!['c', 'o', 'l', 'o', 'r']);
    reveal_strlit("bold");
    assert("bold"@ =~= seq!['b', 'o', 'l', 'd']);
    reveal_strlit("italic");
    assert("italic"@ =~= seq!['i', 't', 'a', 'l', 'i', 'c']);
    reveal_strlit("underlined");
    assert("underlined"@ =~= seq!['u', 'n', 'd', 'e', 'r', 'l', 'i', 'n', 'e', 'd']);
    reveal_strlit("strikethrough");
    assert("strikethrough"@ =~= seq!['s', 't', 'r', 'i', 'k', 'e', 't', 'h', 'r', 'o', 'u', 'g', 'h']);
    reveal_strlit("obfuscated");
    assert("obfuscated"@ =~= seq!['o', 'b', 'f', 'u', 's', 'c', 'a', 't', 'e', 'd']);
    reveal_strlit("clickEvent");
    assert("clickEvent"@ =~= seq!['c', 'l', 'i', 'c', 'k', 'E', 'v', 'e', 'n', 't']);
    reveal_strlit("hoverEvent");
    assert("hoverEvent"@ =~= seq!['h', 'o', 'v', 'e', 'r', 'E', 'v', 'e', 'n', 't']);
    reveal_strlit("action");
    assert("action"@ =~= seq!['a', 'c', 't', 'i', 'o', 'n']);
    reveal_strlit("value");
    assert("value"@ =~= seq!['v', 'a', 'l', 'u', 'e']);
    reveal_strlit("contents");
    assert("contents"@ =~= seq!['c', 'o', 'n', 't', 'e', 'n', 't', 's']);
    reveal_strlit("id");
    assert("id"@ =~= seq!['i', 'd']);
    reveal_strlit("count");
    assert("count"@ =~= seq!['c', 'o', 'u', 'n', 't']);
    reveal_strlit("tag");
    assert("tag"@ =~= seq!['t', 'a', 'g']);
    reveal_strlit("name");
    assert("name"@ =~= seq!['n', 'a', 'm', 'e']);
    reveal_strlit("type");
    assert("type"@ =~= seq!['t', 'y', 'p', 'e']);
    reveal_strlit("show_text");
    assert("show_text"@ =~= seq!['s', 'h', 'o', 'w', '_', 't', 'e', 'x', 't']);
    reveal_strlit("show_item");
    assert("show_item"@ =~= seq!['s', 'h', 'o', 'w', '_', 'i', 't', 'e', 'm']);
    reveal_strlit("show_entity");
}

/// The members of a message object, as the reading side looks them up.
#[verifier::rlimit(100)]
proof fn lemma_chat_fields(c: ChatView)
    ensures
        chat_json(c) is Object,
        chat_keys(chat_json(c)->Object_0),
        field(chat_json(c)->Object_0, "text"@) == Some(JsonV::Str(c.text)),
        c.extra.len() > 0 ==> ({
            let ms = chat_json(c)->Object_0;
            let i = key_index(ms, "extra"@);
            0 <= i < ms.len() && ms[i].1 == JsonV::Array(chats_json(c.extra))
        }),
        c.extra.len() == 0 ==> key_index(chat_json(c)->Object_0, "extra"@) == -1,
        field(chat_json(c)->Object_0, "color"@) == match c.color {
            Some(col) => Some(JsonV::Str(color_name(col))),
            None => None::<JsonV>,
        },
        field(chat_json(c)->Object_0, "bold"@) == flag_json(c.bold),
        field(chat_json(c)->Object_0, "italic"@) == flag_json(c.italic),
        field(chat_json(c)->Object_0, "underlined"@) == flag_json(c.underlined),
        field(chat_json(c)->Object_0, "strikethrough"@) == flag_json(c.strikethrough),
        field(chat_json(c)->Object_0, "obfuscated"@) == flag_json(c.obfuscated),
        field(chat_json(c)->Object_0, "clickEvent"@) == match c.click_event {
            Some(e) => Some(click_json(e)),
            None => None::<JsonV>,
        },
        c.hover_event is Some ==> ({
            let ms = chat_json(c)->Object_0;
            let i = key_index(ms, "hoverEvent"@);
            0 <= i < ms.len() && ms[i].1 == hover_json(c.hover_event->Some_0)
        }),
        c.hover_event is None ==> key_index(chat_json(c)->Object_0, "hoverEvent"@) == -1,
{
    lemma_keys_distinct();
    let ms0 = seq![("text"@, JsonV::Str(c.text))];
    lemma_key_index_push(Seq::empty(), ("text"@, JsonV::Str(c.text)));
    assert(Seq::<(Seq<char>, JsonV)>::empty().push(("text"@, JsonV::Str(c.text))) == ms0);
    assert(key_index(Seq::empty(), "text"@) == -1);
    let ev = if c.extra.len() > 0 { Some(JsonV::Array(chats_json(c.extra))) } else { None };
    let ms1 = push_opt(ms0, "extra"@, ev);
    lemma_push_opt(ms0, "extra"@, ev);
    let cv = match c.color {
        Some(col) => Some(JsonV::Str(color_name(col))),
        None => None,
    };
    let ms2 = push_opt(ms1, "color"@, cv);
    lemma_push_opt(ms1, "color"@, cv);
    let ms3 = push_opt(ms2, "bold"@, flag_json(c.bold));
    lemma_push_opt(ms2, "bold"@, flag_json(c.bold));
    let ms4 = push_opt(ms3, "italic"@, flag_json(c.italic));
    lemma_push_opt(ms3, "italic"@, flag_json(c.italic));
    let ms5 = push_opt(ms4, "underlined"@, flag_json(c.underlined));
    lemma_push_opt(ms4, "underlined"@, flag_json(c.underlined));
    let ms6 = push_opt(ms5, "strikethrough"@, flag_json(c.strikethrough));
    lemma_push_opt(ms5, "strikethrough"@, flag_json(c.strikethrough));
    let ms7 = push_opt(ms6, "obfuscated"@, flag_json(c.obfuscated));
    lemma_push_opt(ms6, "obfuscated"@, flag_json(c.obfuscated));
    let kv = match c.click_event {
        Some(e) => Some(click_json(e)),
        None => None,
    };
    let ms8 = push_opt(ms7, "clickEvent"@, kv);
    lemma_push_opt(ms7, "clickEvent"@, kv);
    let hv = match c.hover_event {
        Some(h) => Some(hover_json(h)),
        None => None,
    };
    let ms9 = push_opt(ms8, "hoverEvent"@, hv);
    lemma_push_opt(ms8, "hoverEvent"@, hv);
    assert(chat_json(c) == JsonV::Object(ms9));
    assert(chat_keys(ms0));
    assert(chat_keys(ms1));
    assert(chat_keys(ms2));
    assert(chat_keys(ms3));
    assert(chat_keys(ms4));
    assert(chat_keys(ms5));
    assert(chat_keys(ms6));
    assert(chat_keys(ms7));
    assert(chat_keys(ms8));
    assert(chat_keys(ms9));
}

/// Reading back what a message was written as gives the message, where its
/// `extra` and its hover event read back.
#[verifier::rlimit(100)]
proof fn lemma_chat_round_trip(c: ChatView)
    requires
        decode_chats(chats_json(c.extra)) == Ok::<Seq<ChatView>, DecodeError>(c.extra),
        c.hover_event is Some ==> decode_hover(hover_json(c.hover_event->Some_0)) == Ok::<
            HoverView,
            DecodeError,
        >(c.hover_event->Some_0),
    ensures
        decode_chat(chat_json(c)) == Ok::<ChatView, DecodeError>(c),
{
    lemma_chat_fields(c);
    if c.extra.len() == 0 {
        assert(c.extra =~= Seq::<ChatView>::empty());
    }
    if let Some(col) = c.color {
        lemma_color_names(col);
    }
    if let Some(e) = c.click_event {
        lemma_click_round_trip(e);
    }
}

/// Reading back what a hover event was written as gives the event, where
/// the messages in it read back and its entity id parses back.
#[verifier::rlimit(100)]
proof fn lemma_hover_round_trip(h: HoverView)
    requires
        h is ShowText ==> decode_chat(chat_json(*(h->ShowText_0))) == Ok::<ChatView, DecodeError>(
            *(h->ShowText_0),
        ),
        h is ShowEntity && h->ShowEntity_name is Some ==> decode_chat(
            chat_json(*(h->ShowEntity_name->Some_0)),
        ) == Ok::<ChatView, DecodeError>(*(h->ShowEntity_name->Some_0)),
        h is ShowEntity ==> uuid_parsed(uuid_hyphenated(h->ShowEntity_id)) == Some(
            h->ShowEntity_id,
        ),
    ensures
        decode_hover(hover_json(h)) == Ok::<HoverView, DecodeError>(h),
{
    lemma_keys_distinct();
    let e: Members = Seq::empty();
    let (action, contents) = match h {
        HoverView::ShowText(c) => ("show_text"@, chat_json(*c)),
        HoverView::ShowItem { .. } => ("show_item"@, hover_json(h)->Object_0[1].1),
        HoverView::ShowEntity { .. } => ("show_entity"@, hover_json(h)->Object_0[1].1),
    };
    let a = ("action"@, JsonV::Str(action));
    let ms = seq![a, ("contents"@, contents)];
    lemma_key_index_push(e, a);
    lemma_key_index_push(seq![a], ("contents"@, contents));
    assert(e.push(a) == seq![a]);
    assert(seq![a].push(("contents"@, contents)) == ms);
    assert(key_index(e, "action"@) == -1);
    assert(key_index(e, "contents"@) == -1);
    assert(hover_json(h) == JsonV::Object(ms));
    match h {
        HoverView::ShowText(c) => {},
        HoverView::ShowItem { id, count, tag } => {
            let m0 = ("id"@, JsonV::Str(id));
            let cv = match count {
                Some(n) => Some(JsonV::Int(n as int)),
                None => None,
            };
            let tv = match tag {
                Some(t) => Some(JsonV::Str(t)),
                None => None,
            };
            lemma_key_index_push(e, m0);
            assert(e.push(m0) == seq![m0]);
            assert(key_index(e, "id"@) == -1);
            assert(key_index(e, "count"@) == -1);
            assert(key_index(e, "tag"@) == -1);
            lemma_push_opt(seq![m0], "count"@, cv);
            lemma_push_opt(push_opt(seq![m0], "count"@, cv), "tag"@, tv);
        },
        HoverView::ShowEntity { name, entity_type, id } => {
            let nv = match name {
                Some(c) => Some(chat_json(*c)),
                None => None,
            };
            let m0 = push_opt(e, "name"@, nv);
            let m1 = m0.push(("type"@, JsonV::Str(entity_type)));
            lemma_push_opt(e, "name"@, nv);
            assert(key_index(e, "name"@) == -1);
            assert(key_index(e, "type"@) == -1);
            assert(key_index(e, "id"@) == -1);
            lemma_key_index_push(m0, ("type"@, JsonV::Str(entity_type)));
            lemma_key_index_push(m1, ("id"@, JsonV::Str(uuid_hyphenated(id))));
        },
    }
}

proof fn lemma_color_names(c: Color)
    ensures
        color_named(color_name(c)) == Some(c),
{
    reveal_strlit("black");
    assert("black"@ =~= seq!['b', 'l', 'a', 'c', 'k']);
    reveal_strlit("dark_blue");
    assert("dark_blue"@ =~= seq!['d', 'a', 'r', 'k', '_', 'b', 'l', 'u', 'e']);
    reveal_strlit("dark_green");
    assert("dark_green"@ =~= seq!['d', 'a', 'r', 'k', '_', 'g', 'r', 'e', 'e', 'n']);
    reveal_strlit("dark_aqua");
    assert("dark_aqua"@ =~= seq!['d', 'a', 'r', 'k', '_', 'a', 'q', 'u', 'a']);
    reveal_strlit("dark_red");
    assert("dark_red"@ =~= seq!['d', 'a', 'r', 'k', '_', 'r', 'e', 'd']);
    reveal_strlit("dark_purple");
    assert("dark_purple"@ =~= seq!['d', 'a', 'r', 'k', '_', 'p', 'u', 'r', 'p', 'l', 'e']);
    reveal_strlit("gold");
    assert("gold"@ =~= seq!['g', 'o', 'l', 'd']);
    reveal_strlit("gray");
    assert("gray"@ =~= seq!['g', 'r', 'a', 'y']);
    reveal_strlit("dark_gray");
    assert("dark_gray"@ =~= seq!['d', 'a', 'r', 'k', '_', 'g', 'r', 'a', 'y']);
    reveal_strlit("blue");
    assert("blue"@ =~= seq!['b', 'l', 'u', 'e']);
    reveal_strlit("green");
    assert("green"@ =~= seq!['g', 'r', 'e', 'e', 'n']);
    reveal_strlit("aqua");
    assert("aqua"@ =~= seq!['a', 'q', 'u', 'a']);
    reveal_strlit("red");
    assert("red"@ =~= seq!['r', 'e', 'd']);
    reveal_strlit("light_purple");
    assert("light_purple"@ =~= seq!['l', 'i', 'g', 'h', 't', '_', 'p', 'u', 'r', 'p', 'l', 'e']);
    reveal_strlit("yellow");
    assert("yellow"@ =~= seq!['y', 'e', 'l', 'l', 'o', 'w']);
    reveal_strlit("white");
}

proof fn lemma_click_round_trip(e: ClickView)
    ensures
        decode_click(click_json(e)) == Ok::<ClickView, DecodeError>(e),
{
    lemma_keys_distinct();
    reveal_strlit("open_url");
    assert("open_url"@ =~= seq!['o', 'p', 'e', 'n', '_', 'u', 'r', 'l']);
    reveal_strlit("open_file");
    assert("open_file"@ =~= seq!['o', 'p', 'e', 'n', '_', 'f', 'i', 'l', 'e']);
    reveal_strlit("run_command");
    assert("run_command"@ =~= seq!['r', 'u', 'n', '_', 'c', 'o', 'm', 'm', 'a', 'n', 'd']);
    reveal_strlit("suggest_command");
    assert("suggest_command"@ =~= seq!['s', 'u', 'g', 'g', 'e', 's', 't', '_', 'c', 'o', 'm', 'm', 'a', 'n', 'd']);
    reveal_strlit("change_page");
    assert("change_page"@ =~= seq!['c', 'h', 'a', 'n', 'g', 'e', '_', 'p', 'a', 'g', 'e']);
    reveal_strlit("copy_to_clipboard");
    assert("copy_to_clipboard"@ =~= seq!['c', 'o', 'p', 'y', '_', 't', 'o', '_', 'c', 'l', 'i', 'p', 'b', 'o', 'a', 'r', 'd']);
    let a = ("action"@, JsonV::Str(click_name(e.action)));
    let ms = seq![a, ("value"@, JsonV::Str(e.value))];
    lemma_key_index_push(Seq::empty(), a);
    lemma_key_index_push(seq![a], ("value"@, JsonV::Str(e.value)));
    assert(Seq::<(Seq<char>, JsonV)>::empty().push(a) == seq![a]);
    assert(seq![a].push(("value"@, JsonV::Str(e.value))) == ms);
    assert(key_index(Seq::<(Seq<char>, JsonV)>::empty(), "action"@) == -1);
    assert(key_index(Seq::<(Seq<char>, JsonV)>::empty(), "value"@) == -1);
}

// ---------------------------------------------------------------- reading

pub open spec fn opt_json(v: Option<&Json>) -> Option<JsonV> {
    match v {
        Some(j) => Some(j@),
        None => None,
    }
}

pub open spec fn opt_str(v: Option<String>) -> Option<Seq<char>> {
    match v {
        Some(s) => Some(s@),
        None => None,
    }
}

fn is_key(k: &String, name: &str) -> (r: bool)
    ensures
        r == (k@ == name@),
{
    let n = String::from_str(name);
    *k == n
}

/// The index of the first member named `k`.
fn find(ms: &Vec<(String, Json)>, k: &str) -> (r: Option<usize>)
    ensures
        match r {
            Some(i) => i as int == key_index(members_view(ms@), k@) && i < ms.len(),
            None => key_index(members_view(ms@), k@) == -1,
        },
{
    proof {
        lemma_members_view(ms@);
        lemma_key_index(members_view(ms@), k@);
    }
    let mut i: usize = 0;
    while i < ms.len()
        invariant
            i <= ms.len(),
            members_view(ms@).len() == ms.len(),
            forall|j: int| 0 <= j < i ==> (#[trigger] members_view(ms@)[j]).0 != k@,
        decreases ms.len() - i,
    {
        proof {
            lemma_members_view(ms@);
            lemma_key_index(members_view(ms@), k@);
        }
        if is_key(&ms[i].0, k) {
            assert(members_view(ms@)[i as int].0 == k@);
            return Some(i);
        }
        i = i + 1;
    }
    None
}

/// The value of the first member named `k`.
fn get<'a>(ms: &'a Vec<(String, Json)>, k: &str) -> (r: Option<&'a Json>)
    ensures
        opt_json(r) == field(members_view(ms@), k@),
{
    proof {
        lemma_members_view(ms@);
    }
    match find(ms, k) {
        Some(i) => Some(&ms[i].1),
        None => None,
    }
}

fn read_flag(v: Option<&Json>) -> (r: Result<Option<bool>, DecodeError>)
    ensures
        r == decode_flag(opt_json(v)),
{
    match v {
        None => Ok(None),
        Some(Json::Null) => Ok(None),
        Some(Json::Bool(b)) => Ok(Some(*b)),
        Some(_) => Err(DecodeError::TypeMismatch),
    }
}

fn read_str(v: Option<&Json>) -> (r: Result<String, DecodeError>)
    ensures
        match r {
            Ok(s) => decode_str(opt_json(v)) == Ok::<Seq<char>, DecodeError>(s@),
            Err(e) => decode_str(opt_json(v)) == Err::<Seq<char>, DecodeError>(e),
        },
{
    match v {
        Some(Json::Str(s)) => Ok(s.clone()),
        _ => Err(DecodeError::TypeMismatch),
    }
}

fn read_opt_str(v: Option<&Json>) -> (r: Result<Option<String>, DecodeError>)
    ensures
        match r {
            Ok(s) => decode_opt_str(opt_json(v)) == Ok::<Option<Seq<char>>, DecodeError>(
                opt_str(s),
            ),
            Err(e) => decode_opt_str(opt_json(v)) == Err::<Option<Seq<char>>, DecodeError>(e),
        },
{
    match v {
        None => Ok(None),
        Some(Json::Null) => Ok(None),
        Some(Json::Str(s)) => Ok(Some(s.clone())),
        Some(_) => Err(DecodeError::TypeMismatch),
    }
}

fn read_count(v: Option<&Json>) -> (r: Result<Option<i32>, DecodeError>)
    ensures
        r == decode_count(opt_json(v)),
{
    match v {
        None => Ok(None),
        Some(Json::Null) => Ok(None),
        Some(Json::Int(n)) => if i32::MIN as i128 <= *n && *n <= i32::MAX as i128 {
            Ok(Some(*n as i32))
        } else {
            Err(DecodeError::TypeMismatch)
        },
        Some(_) => Err(DecodeError::TypeMismatch),
    }
}

fn read_uuid(v: Option<&Json>) -> (r: Result<u128, DecodeError>)
    ensures
        r == decode_uuid(opt_json(v)),
{
    match v {
        Some(Json::Str(s)) => match uuid_from_text(s) {
            Some(id) => Ok(id),
            None => Err(DecodeError::TypeMismatch),
        },
        _ => Err(DecodeError::TypeMismatch),
    }
}

/// The color with the given name.
pub fn color_from_name(s: &String) -> (r: Option<Color>)
    ensures
        r == color_named(s@),
{
    if is_key(s, "black") { Some(Color::Black) }
    else if is_key(s, "dark_blue") { Some(Color::DarkBlue) }
    else if is_key(s, "dark_green") { Some(Color::DarkGreen) }
    else if is_key(s, "dark_aqua") { Some(Color::DarkAqua) }
    else if is_key(s, "dark_red") { Some(Color::DarkRed) }
    else if is_key(s, "dark_purple") { Some(Color::DarkPurple) }
    else if is_key(s, "gold") { Some(Color::Gold) }
    else if is_key(s, "gray") { Some(Color::Gray) }
    else if is_key(s, "dark_gray") { Some(Color::DarkGray) }
    else if is_key(s, "blue") { Some(Color::Blue) }
    else if is_key(s, "green") { Some(Color::Green) }
    else if is_key(s, "aqua") { Some(Color::Aqua) }
    else if is_key(s, "red") { Some(Color::Red) }
    else if is_key(s, "light_purple") { Some(Color::LightPurple) }
    else if is_key(s, "yellow") { Some(Color::Yellow) }
    else if is_key(s, "white") { Some(Color::White) }
    else { None }
}

fn read_color(v: Option<&Json>) -> (r: Result<Option<Color>, DecodeError>)
    ensures
        r == decode_color(opt_json(v)),
{
    match v {
        None => Ok(None),
        Some(Json::Null) => Ok(None),
        Some(Json::Str(s)) => match color_from_name(s) {
            Some(c) => Ok(Some(c)),
            None => Err(DecodeError::TypeMismatch),
        },
        Some(_) => Err(DecodeError::TypeMismatch),
    }
}

fn click_action_from_name(a: &String) -> (r: Option<ClickAction>)
    ensures
        r == click_named(a@),
{
    if is_key(a, "open_url") { Some(ClickAction::OpenUrl) }
    else if is_key(a, "open_file") { Some(ClickAction::OpenFile) }
    else if is_key(a, "run_command") { Some(ClickAction::RunCommand) }
    else if is_key(a, "suggest_command") { Some(ClickAction::SuggestCommand) }
    else if is_key(a, "change_page") { Some(ClickAction::ChangePage) }
    else if is_key(a, "copy_to_clipboard") { Some(ClickAction::CopyToClipboard) }
    else { None }
}

impl ClickEvent {
    /// The event of the given kind with the given argument.
    pub fn new(action: ClickAction, value: String) -> (r: ClickEvent)
        ensures
            r@ == (ClickView { action, value: value@ }),
    {
        match action {
            ClickAction::OpenUrl => ClickEvent::OpenUrl(value),
            ClickAction::OpenFile => ClickEvent::OpenFile(value),
            ClickAction::RunCommand => ClickEvent::RunCommand(value),
            ClickAction::SuggestCommand => ClickEvent::SuggestCommand(value),
            ClickAction::ChangePage => ClickEvent::ChangePage(value),
            ClickAction::CopyToClipboard => ClickEvent::CopyToClipboard(value),
        }
    }

    /// The click event that a JSON object describes. Members other than
    /// `action` and `value` are ignored.
    pub fn from_json(j: &Json) -> (r: Result<ClickEvent, DecodeError>)
        ensures
            match r {
                Ok(e) => decode_click(j@) == Ok::<ClickView, DecodeError>(e@),
                Err(e) => decode_click(j@) == Err::<ClickView, DecodeError>(e),
            },
    {
        match j {
            Json::Object(ms) => match get(ms, "action") {
                Some(Json::Str(a)) => match click_action_from_name(a) {
                    Some(action) => match read_str(get(ms, "value")) {
                        Ok(value) => Ok(ClickEvent::new(action, value)),
                        Err(e) => Err(e),
                    },
                    None => Err(DecodeError::InvalidDiscriminator),
                },
                _ => Err(DecodeError::TypeMismatch),
            },
            _ => Err(DecodeError::TypeMismatch),
        }
    }
}

fn read_click(v: Option<&Json>) -> (r: Result<Option<ClickEvent>, DecodeError>)
    ensures
        match r {
            Ok(Some(e)) => decode_opt_click(opt_json(v)) == Ok::<Option<ClickView>, DecodeError>(
                Some(e@),
            ),
            Ok(None) => decode_opt_click(opt_json(v)) == Ok::<Option<ClickView>, DecodeError>(
                None,
            ),
            Err(e) => decode_opt_click(opt_json(v)) == Err::<Option<ClickView>, DecodeError>(e),
        },
{
    match v {
        None => Ok(None),
        Some(Json::Null) => Ok(None),
        Some(j) => match ClickEvent::from_json(j) {
            Ok(e) => Ok(Some(e)),
            Err(e) => Err(e),
        },
    }
}

fn read_item(j: &Json) -> (r: Result<HoverEvent, DecodeError>)
    ensures
        match r {
            Ok(h) => decode_item(j@) == Ok::<HoverView, DecodeError>(h@),
            Err(e) => decode_item(j@) == Err::<HoverView, DecodeError>(e),
        },
{
    match j {
        Json::Object(ms) => {
            let id = match read_str(get(ms, "id")) {
                Ok(id) => id,
                Err(e) => return Err(e),
            };
            let count = match read_count(get(ms, "count")) {
                Ok(n) => n,
                Err(e) => return Err(e),
            };
            let tag = match read_opt_str(get(ms, "tag")) {
                Ok(t) => t,
                Err(e) => return Err(e),
            };
            Ok(HoverEvent::ShowItem { id, count, tag })
        },
        _ => Err(DecodeError::TypeMismatch),
    }
}

fn read_entity(j: &Json) -> (r: Result<HoverEvent, DecodeError>)
    ensures
        match r {
            Ok(h) => decode_entity(j@) == Ok::<HoverView, DecodeError>(h@),
            Err(e) => decode_entity(j@) == Err::<HoverView, DecodeError>(e),
        },
    decreases j,
{
    match j {
        Json::Object(ms) => {
            proof {
                lemma_members_view(ms@);
            }
            let name = match find(ms, "name") {
                Some(i) => match &ms[i].1 {
                    Json::Null => None,
                    w => match Chat::from_json(w) {
                        Ok(c) => Some(Box::new(c)),
                        Err(e) => return Err(e),
                    },
                },
                None => None,
            };
            let entity_type = match read_str(get(ms, "type")) {
                Ok(t) => t,
                Err(e) => return Err(e),
            };
            let id = match read_uuid(get(ms, "id")) {
                Ok(id) => id,
                Err(e) => return Err(e),
            };
            Ok(HoverEvent::ShowEntity { name, entity_type, id })
        },
        _ => Err(DecodeError::TypeMismatch),
    }
}

impl HoverEvent {
    /// The hover event that a JSON object describes. Members other than
    /// `action` and `contents` are ignored.
    pub fn from_json(j: &Json) -> (r: Result<HoverEvent, DecodeError>)
        ensures
            match r {
                Ok(h) => decode_hover(j@) == Ok::<HoverView, DecodeError>(h@),
                Err(e) => decode_hover(j@) == Err::<HoverView, DecodeError>(e),
            },
        decreases j,
    {
        match j {
            Json::Object(ms) => {
                proof {
                    lemma_members_view(ms@);
                }
                match get(ms, "action") {
                    Some(Json::Str(a)) => {
                        let text = is_key(a, "show_text");
                        let item = is_key(a, "show_item");
                        let entity = is_key(a, "show_entity");
                        if !(text || item || entity) {
                            return Err(DecodeError::InvalidDiscriminator);
                        }
                        match find(ms, "contents") {
                            Some(i) => if text {
                                match Chat::from_json(&ms[i].1) {
                                    Ok(c) => Ok(HoverEvent::ShowText(Box::new(c))),
                                    Err(e) => Err(e),
                                }
                            } else if item {
                                read_item(&ms[i].1)
                            } else {
                                read_entity(&ms[i].1)
                            },
                            None => Err(DecodeError::TypeMismatch),
                        }
                    },
                    _ => Err(DecodeError::TypeMismatch),
                }
            },
            _ => Err(DecodeError::TypeMismatch),
        }
    }
}

fn known_chat_key(k: &String) -> (r: bool)
    ensures
        r == is_chat_key(k@),
{
    is_key(k, "text") || is_key(k, "extra") || is_key(k, "color") || is_key(k, "bold")
        || is_key(k, "italic") || is_key(k, "underlined") || is_key(k, "strikethrough")
        || is_key(k, "obfuscated") || is_key(k, "clickEvent") || is_key(k, "hoverEvent")
}

pub proof fn lemma_decode_chats_err(s: Seq<JsonV>, i: int)
    requires
        0 <= i <= s.len(),
        decode_chats(s.subrange(0, i)) is Err,
    ensures
        decode_chats(s) == decode_chats(s.subrange(0, i)),
    decreases s.len() - i,
{
    if i < s.len() {
        assert(s.subrange(0, i + 1).subrange(0, i) =~= s.subrange(0, i));
        lemma_decode_chats_err(s, i + 1);
    } else {
        assert(s.subrange(0, i) =~= s);
    }
}

fn read_chats(a: &Vec<Json>) -> (r: Result<Vec<Chat>, DecodeError>)
    ensures
        match r {
            Ok(cs) => decode_chats(jsons_view(a@)) == Ok::<Seq<ChatView>, DecodeError>(
                chats_view(cs@),
            ),
            Err(e) => decode_chats(jsons_view(a@)) == Err::<Seq<ChatView>, DecodeError>(e),
        },
    decreases a,
{
    let ghost av = jsons_view(a@);
    proof {
        lemma_jsons_view(a@);
    }
    let mut cs: Vec<Chat> = Vec::new();
    let mut i: usize = 0;
    proof {
        assert(av.subrange(0, 0) =~= Seq::<JsonV>::empty());
        assert(chats_view(cs@) =~= Seq::<ChatView>::empty());
    }
    while i < a.len()
        invariant
            i <= a.len(),
            av == jsons_view(a@),
            av.len() == a.len(),
            forall|k: int| 0 <= k < a.len() ==> #[trigger] av[k] == json_view(a@[k]),
            decode_chats(av.subrange(0, i as int)) == Ok::<Seq<ChatView>, DecodeError>(
                chats_view(cs@),
            ),
        decreases a.len() - i,
    {
        proof {
            assert(av.subrange(0, i + 1).subrange(0, i as int) =~= av.subrange(0, i as int));
            assert(av.subrange(0, i + 1)[i as int] == av[i as int]);
        }
        match Chat::from_json(&a[i]) {
            Ok(c) => {
                proof {
                    assert(cs@.push(c).subrange(0, cs.len() as int) =~= cs@);
                }
                cs.push(c);
            },
            Err(e) => {
                proof {
                    lemma_decode_chats_err(av, i + 1);
                }
                return Err(e);
            },
        }
        i = i + 1;
    }
    proof {
        assert(av.subrange(0, i as int) =~= av);
    }
    Ok(cs)
}

impl Chat {
    /// The message that a JSON object describes. A member that is not a
    /// field of a message is an error; absent optional fields stay unset.
    pub fn from_json(j: &Json) -> (r: Result<Chat, DecodeError>)
        ensures
            match r {
                Ok(c) => decode_chat(j@) == Ok::<ChatView, DecodeError>(c@),
                Err(e) => decode_chat(j@) == Err::<ChatView, DecodeError>(e),
            },
        decreases j,
    {
        match j {
            Json::Object(ms) => {
                proof {
                    lemma_members_view(ms@);
                }
                let mut k: usize = 0;
                while k < ms.len()
                    invariant
                        k <= ms.len(),
                        j@ == JsonV::Object(members_view(ms@)),
                        members_view(ms@).len() == ms.len(),
                        forall|i: int| 0 <= i < ms.len() ==> #[trigger] members_view(ms@)[i] == (ms@[i].0@, json_view(ms@[i].1)),
                        forall|i: int| 0 <= i < k ==> is_chat_key(#[trigger] members_view(ms@)[i].0),
                    decreases ms.len() - k,
                {
                    if !known_chat_key(&ms[k].0) {
                        proof {
                            let mv = members_view(ms@);
                            assert(!is_chat_key(mv[k as int].0));
                            assert(!(forall|i: int| 0 <= i < mv.len() ==> is_chat_key(#[trigger] mv[i].0)));
                        }
                        return Err(DecodeError::UnknownField);
                    }
                    k = k + 1;
                }
                let text = match read_str(get(ms, "text")) {
                    Ok(t) => t,
                    Err(e) => return Err(e),
                };
                let extra = match find(ms, "extra") {
                    Some(i) => match &ms[i].1 {
                        Json::Array(a) => match read_chats(a) {
                            Ok(cs) => cs,
                            Err(e) => return Err(e),
                        },
                        _ => return Err(DecodeError::TypeMismatch),
                    },
                    None => {
                        let cs: Vec<Chat> = Vec::new();
                        proof {
                            assert(chats_view(cs@) =~= Seq::<ChatView>::empty());
                        }
                        cs
                    },
                };
                let color = match read_color(get(ms, "color")) {
                    Ok(c) => c,
                    Err(e) => return Err(e),
                };
                let bold = match read_flag(get(ms, "bold")) {
                    Ok(b) => b,
                    Err(e) => return Err(e),
                };
                let italic = match read_flag(get(ms, "italic")) {
                    Ok(b) => b,
                    Err(e) => return Err(e),
                };
                let underlined = match read_flag(get(ms, "underlined")) {
                    Ok(b) => b,
                    Err(e) => return Err(e),
                };
                let strikethrough = match read_flag(get(ms, "strikethrough")) {
                    Ok(b) => b,
                    Err(e) => return Err(e),
                };
                let obfuscated = match read_flag(get(ms, "obfuscated")) {
                    Ok(b) => b,
                    Err(e) => return Err(e),
                };
                let click_event = match read_click(get(ms, "clickEvent")) {
                    Ok(e) => e,
                    Err(e) => return Err(e),
                };
                let hover_event = match find(ms, "hoverEvent") {
                    Some(i) => match &ms[i].1 {
                        Json::Null => None,
                        w => match HoverEvent::from_json(w) {
                            Ok(h) => Some(h),
                            Err(e) => return Err(e),
                        },
                    },
                    None => None,
                };
                Ok(
                    Chat {
                        text,
                        extra,
                        color,
                        bold,
                        italic,
                        underlined,
                        strikethrough,
                        obfuscated,
                        click_event,
                        hover_event,
                    },
                )
            },
            _ => Err(DecodeError::TypeMismatch),
        }
    }
}

// ---------------------------------------------------------------- laws

/// A message that holds only text is written as an object with the single
/// member `text`; in particular the default message is written as
/// `{"text": ""}`.
pub proof fn plain_chat_writes_text_only(text: Seq<char>)
    ensures
        chat_json(plain_view(text)) == JsonV::Object(seq![("text"@, JsonV::Str(text))]),
{
}

/// A message object with a member that is not a field of a message is
/// rejected with `UnknownField`.
pub proof fn unknown_member_is_rejected(ms: Members, i: int)
    requires
        0 <= i < ms.len(),
        !is_chat_key(ms[i].0),
    ensures
        decode_chat(JsonV::Object(ms)) == Err::<ChatView, DecodeError>(DecodeError::UnknownField),
{
    assert(!chat_keys(ms));
}

/// A click event whose `action` names none of the click actions is rejected
/// with `InvalidDiscriminator`.
pub proof fn unknown_click_action_is_rejected(ms: Members, a: Seq<char>)
    requires
        field(ms, "action"@) == Some(JsonV::Str(a)),
        forall|x: ClickAction| click_name(x) != a,
    ensures
        decode_click(JsonV::Object(ms)) == Err::<ClickView, DecodeError>(
            DecodeError::InvalidDiscriminator,
        ),
{
    if let Some(x) = click_named(a) {
        assert(click_name(x) == a);
    }
}

/// A hover event whose `action` names none of the hover actions is rejected
/// with `InvalidDiscriminator`.
pub proof fn unknown_hover_action_is_rejected(ms: Members, a: Seq<char>)
    requires
        field(ms, "action"@) == Some(JsonV::Str(a)),
        a != "show_text"@,
        a != "show_item"@,
        a != "show_entity"@,
    ensures
        decode_hover(JsonV::Object(ms)) == Err::<HoverView, DecodeError>(
            DecodeError::InvalidDiscriminator,
        ),
{
}

} // verus!
