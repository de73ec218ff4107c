use mcchat::chat::{Chat, ClickAction, ClickEvent, Color, HoverEvent};
use mcchat::codec::{color_from_name, DecodeError};
use mcchat::json::Json;

fn s(x: &str) -> String {
    x.to_string()
}

fn obj(members: Vec<(&str, Json)>) -> Json {
    Json::Object(members.into_iter().map(|(k, v)| (k.to_string(), v)).collect())
}

fn assert_unset(c: &Chat) {
    assert!(c.extra.is_empty());
    assert_eq!(c.color, None);
    assert_eq!(c.bold, None);
    assert_eq!(c.italic, None);
    assert_eq!(c.underlined, None);
    assert_eq!(c.strikethrough, None);
    assert_eq!(c.obfuscated, None);
    assert!(c.click_event.is_none());
    assert!(c.hover_event.is_none());
}

#[test]
fn plain_text_shortcut() {
    let c = Chat::from(s("hello"));
    assert_eq!(c.text, "hello");
    assert_unset(&c);
}

#[test]
fn default_is_empty() {
    let c = Chat::default();
    assert_eq!(c.text, "");
    assert_unset(&c);
}

#[test]
fn style_flags_are_independent() {
    let mut c = Chat::default();
    c.bold().no_italic();
    assert_eq!(c.bold, Some(true));
    assert_eq!(c.italic, Some(false));
    assert_eq!(c.underlined, None);
    assert_eq!(c.strikethrough, None);
    assert_eq!(c.obfuscated, None);
    assert_eq!(c.color, None);
    assert!(c.extra.is_empty());
    assert!(c.click_event.is_none());
    assert!(c.hover_event.is_none());
}

#[test]
fn every_flag_setter() {
    let mut c = Chat::default();
    c.no_bold().italic().underlined().strikethrough().obfuscated();
    assert_eq!(
        (c.bold, c.italic, c.underlined, c.strikethrough, c.obfuscated),
        (Some(false), Some(true), Some(true), Some(true), Some(true))
    );
    c.no_underlined();
    c.no_strikethrough();
    c.no_obfuscated();
    assert_eq!(
        (c.underlined, c.strikethrough, c.obfuscated),
        (Some(false), Some(false), Some(false))
    );
}

#[test]
fn extras_and_events() {
    let mut c = Chat::default();
    c.add_extra(Chat::from(s("a")));
    c.add_extra(Chat::from(s("b")));
    assert_eq!(c.extra.len(), 2);
    assert_eq!(c.extra[1].text, "b");
    c.set_extras(vec![Chat::from(s("z"))]);
    assert_eq!(c.extra.len(), 1);
    assert_eq!(c.extra[0].text, "z");
    c.color(Color::Gold);
    assert_eq!(c.color, Some(Color::Gold));
    c.on_click(ClickEvent::OpenUrl(s("https://example.org")));
    c.on_click(ClickEvent::RunCommand(s("/help")));
    assert_eq!(c.click_event, Some(ClickEvent::RunCommand(s("/help"))));
    c.on_hover(HoverEvent::ShowText(Box::new(Chat::from(s("tip")))));
    assert!(matches!(c.hover_event, Some(HoverEvent::ShowText(_))));
}

#[test]
fn default_writes_only_text() {
    let j = Chat::default().to_json();
    assert_eq!(j, obj(vec![("text", Json::Str(s("")))]));
}

#[test]
fn nested_example() {
    let mut world = Chat::from(s("World!"));
    world.bold();
    let mut c = Chat::default();
    c.set_extras(vec![Chat::from(s("Hello, ")), world]);
    let expected = obj(vec![
        ("text", Json::Str(s(""))),
        (
            "extra",
            Json::Array(vec![
                obj(vec![("text", Json::Str(s("Hello, ")))]),
                obj(vec![("text", Json::Str(s("World!"))), ("bold", Json::Bool(true))]),
            ]),
        ),
    ]);
    assert_eq!(c.to_json(), expected);
}

#[test]
fn field_names_and_order() {
    let mut c = Chat::from(s("x"));
    c.on_hover(HoverEvent::ShowItem { id: s("minecraft:stone"), count: Some(3), tag: None });
    c.on_click(ClickEvent::CopyToClipboard(s("x")));
    c.obfuscated();
    c.color(Color::LightPurple);
    let expected = obj(vec![
        ("text", Json::Str(s("x"))),
        ("color", Json::Str(s("light_purple"))),
        ("obfuscated", Json::Bool(true)),
        (
            "clickEvent",
            obj(vec![
                ("action", Json::Str(s("copy_to_clipboard"))),
                ("value", Json::Str(s("x"))),
            ]),
        ),
        (
            "hoverEvent",
            obj(vec![
                ("action", Json::Str(s("show_item"))),
                (
                    "contents",
                    obj(vec![("id", Json::Str(s("minecraft:stone"))), ("count", Json::Int(3))]),
                ),
            ]),
        ),
    ]);
    assert_eq!(c.to_json(), expected);
}

const ENTITY_ID: u128 = 0x67e5_5044_10b1_426f_9247_bb68_0e5f_e0c8;

#[test]
fn entity_id_is_written_hyphenated() {
    let h = HoverEvent::ShowEntity { name: None, entity_type: s("minecraft:pig"), id: ENTITY_ID };
    let expected = obj(vec![
        ("action", Json::Str(s("show_entity"))),
        (
            "contents",
            obj(vec![
                ("type", Json::Str(s("minecraft:pig"))),
                ("id", Json::Str(s("67e55044-10b1-426f-9247-bb680e5fe0c8"))),
            ]),
        ),
    ]);
    assert_eq!(h.to_json(), expected);
}

#[test]
fn entity_id_reads_other_forms() {
    let j = obj(vec![
        ("action", Json::Str(s("show_entity"))),
        (
            "contents",
            obj(vec![
                ("type", Json::Str(s("minecraft:pig"))),
                ("id", Json::Str(s("67E5504410B1426F9247BB680E5FE0C8"))),
            ]),
        ),
    ]);
    match HoverEvent::from_json(&j) {
        Ok(HoverEvent::ShowEntity { name, entity_type, id }) => {
            assert!(name.is_none());
            assert_eq!(entity_type, "minecraft:pig");
            assert_eq!(id, ENTITY_ID);
        }
        other => panic!("unexpected {:?}", other),
    }
}

#[test]
fn bad_entity_id_is_a_type_mismatch() {
    let j = obj(vec![
        ("action", Json::Str(s("show_entity"))),
        ("contents", obj(vec![("type", Json::Str(s("pig"))), ("id", Json::Str(s("not-a-uuid")))])),
    ]);
    assert_eq!(HoverEvent::from_json(&j).unwrap_err(), DecodeError::TypeMismatch);
}

fn rich_message() -> Chat {
    let mut name = Chat::from(s("Babe"));
    name.color(Color::DarkRed);
    let mut inner = Chat::from(s("inner"));
    inner.no_bold();
    inner.on_hover(HoverEvent::ShowEntity {
        name: Some(Box::new(name)),
        entity_type: s("minecraft:pig"),
        id: ENTITY_ID,
    });
    let mut tip = Chat::from(s("tip"));
    tip.add_extra(Chat::from(s("more")));
    let mut c = Chat::from(s("root"));
    c.color(Color::Aqua);
    c.bold();
    c.no_italic();
    c.underlined();
    c.no_strikethrough();
    c.obfuscated();
    c.on_click(ClickEvent::ChangePage(s("2")));
    c.on_hover(HoverEvent::ShowText(Box::new(tip)));
    c.add_extra(inner);
    c.add_extra(Chat::from(s("last")));
    c
}

#[test]
fn round_trip_rich_message() {
    let c = rich_message();
    let back = Chat::from_json(&c.to_json()).unwrap();
    assert_eq!(back, c);
    assert_eq!(back.to_json(), c.to_json());
}

#[test]
fn round_trip_item_with_tag() {
    let mut c = Chat::default();
    c.on_hover(HoverEvent::ShowItem { id: s("minecraft:stick"), count: None, tag: Some(s("{a:1}")) });
    assert_eq!(Chat::from_json(&c.to_json()).unwrap(), c);
}

#[test]
fn unknown_member_is_rejected() {
    let j = obj(vec![("text", Json::Str(s("hi"))), ("font", Json::Str(s("uniform")))]);
    assert_eq!(Chat::from_json(&j).unwrap_err(), DecodeError::UnknownField);
}

#[test]
fn unknown_click_action_is_rejected() {
    let j = obj(vec![
        ("text", Json::Str(s("hi"))),
        ("clickEvent", obj(vec![("action", Json::Str(s("explode"))), ("value", Json::Str(s("x")))])),
    ]);
    assert_eq!(Chat::from_json(&j).unwrap_err(), DecodeError::InvalidDiscriminator);
}

#[test]
fn unknown_hover_action_is_rejected() {
    let j = obj(vec![("action", Json::Str(s("show_achievement"))), ("contents", Json::Str(s("x")))]);
    assert_eq!(HoverEvent::from_json(&j).unwrap_err(), DecodeError::InvalidDiscriminator);
}

#[test]
fn flag_of_wrong_shape_is_a_type_mismatch() {
    let j = obj(vec![("text", Json::Str(s("hi"))), ("bold", Json::Str(s("yes")))]);
    assert_eq!(Chat::from_json(&j).unwrap_err(), DecodeError::TypeMismatch);
}

#[test]
fn missing_text_is_a_type_mismatch() {
    let j = obj(vec![("bold", Json::Bool(true))]);
    assert_eq!(Chat::from_json(&j).unwrap_err(), DecodeError::TypeMismatch);
    assert_eq!(Chat::from_json(&Json::Str(s("hi"))).unwrap_err(), DecodeError::TypeMismatch);
}

#[test]
fn absent_and_null_fields_read_as_unset() {
    let j = obj(vec![
        ("text", Json::Str(s("hi"))),
        ("color", Json::Null),
        ("italic", Json::Null),
        ("hoverEvent", Json::Null),
    ]);
    let c = Chat::from_json(&j).unwrap();
    assert_eq!(c.text, "hi");
    assert_unset(&c);
}

#[test]
fn count_out_of_range_is_a_type_mismatch() {
    let j = obj(vec![
        ("action", Json::Str(s("show_item"))),
        ("contents", obj(vec![("id", Json::Str(s("stone"))), ("count", Json::Int(1 << 40))])),
    ]);
    assert_eq!(HoverEvent::from_json(&j).unwrap_err(), DecodeError::TypeMismatch);
}

#[test]
fn click_event_reads_its_action() {
    let j = obj(vec![("value", Json::Str(s("/spawn"))), ("action", Json::Str(s("suggest_command")))]);
    assert_eq!(ClickEvent::from_json(&j).unwrap(), ClickEvent::SuggestCommand(s("/spawn")));
    assert_eq!(
        ClickEvent::new(ClickAction::OpenFile, s("a.txt")),
        ClickEvent::OpenFile(s("a.txt"))
    );
}

#[test]
fn color_names() {
    assert_eq!(color_from_name(&s("dark_aqua")), Some(Color::DarkAqua));
    assert_eq!(color_from_name(&s("white")), Some(Color::White));
    assert_eq!(color_from_name(&s("DarkAqua")), None);
    assert_eq!(color_from_name(&s("#ff0000")), None);
    let mut c = Chat::default();
    c.color(Color::DarkGray);
    assert_eq!(c.to_json(), obj(vec![("text", Json::Str(s(""))), ("color", Json::Str(s("dark_gray")))]));
}

#[test]
fn count_bounds() {
    let item = |n: i128| {
        obj(vec![
            ("action", Json::Str(s("show_item"))),
            ("contents", obj(vec![("id", Json::Str(s("stone"))), ("count", Json::Int(n))])),
        ])
    };
    for n in [i32::MIN, -1, 0, 64, i32::MAX] {
        match HoverEvent::from_json(&item(n as i128)) {
            Ok(HoverEvent::ShowItem { count, .. }) => assert_eq!(count, Some(n)),
            other => panic!("unexpected {:?}", other),
        }
    }
    assert_eq!(
        HoverEvent::from_json(&item(i32::MAX as i128 + 1)).unwrap_err(),
        DecodeError::TypeMismatch
    );
    assert_eq!(
        HoverEvent::from_json(&item(i32::MIN as i128 - 1)).unwrap_err(),
        DecodeError::TypeMismatch
    );
}

#[test]
fn nested_messages_are_strict_too() {
    let j = obj(vec![
        ("text", Json::Str(s(""))),
        (
            "hoverEvent",
            obj(vec![
                ("action", Json::Str(s("show_text"))),
                ("contents", obj(vec![("text", Json::Str(s("a"))), ("size", Json::Int(3))])),
            ]),
        ),
    ]);
    assert_eq!(Chat::from_json(&j).unwrap_err(), DecodeError::UnknownField);
    let j = obj(vec![
        ("text", Json::Str(s(""))),
        ("extra", Json::Array(vec![obj(vec![("text", Json::Str(s("a")))]), obj(vec![("txt", Json::Str(s("b")))])])),
    ]);
    assert_eq!(Chat::from_json(&j).unwrap_err(), DecodeError::UnknownField);
}

#[test]
fn extra_of_wrong_shape_is_a_type_mismatch() {
    let j = obj(vec![("text", Json::Str(s(""))), ("extra", Json::Null)]);
    assert_eq!(Chat::from_json(&j).unwrap_err(), DecodeError::TypeMismatch);
    let j = obj(vec![("text", Json::Str(s(""))), ("extra", Json::Array(vec![Json::Int(1)]))]);
    assert_eq!(Chat::from_json(&j).unwrap_err(), DecodeError::TypeMismatch);
}

#[test]
fn empty_extra_is_left_out_and_reads_back_empty() {
    let mut c = Chat::from(s("x"));
    c.set_extras(Vec::new());
    assert_eq!(c.to_json(), obj(vec![("text", Json::Str(s("x")))]));
    let j = obj(vec![("text", Json::Str(s("x"))), ("extra", Json::Array(Vec::new()))]);
    let back = Chat::from_json(&j).unwrap();
    assert!(back.extra.is_empty());
}

#[test]
fn explicit_false_is_kept_apart_from_absent() {
    let mut c = Chat::default();
    c.no_bold();
    let j = c.to_json();
    assert_eq!(j, obj(vec![("text", Json::Str(s(""))), ("bold", Json::Bool(false))]));
    let back = Chat::from_json(&j).unwrap();
    assert_eq!(back.bold, Some(false));
    assert_eq!(back.italic, None);
}
