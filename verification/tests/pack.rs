use mstickerlib::matrix::sticker_formats::ponies;
use tg2mx_bot::pack::{
    pack_id, parse_maunium, MauniumPack, MauniumSticker, MetaData, PoniesPack, PoniesSticker,
    Usage,
};
use tg2mx_bot::text::{chars_of, retain_alphanumeric, same_text, strip_prefix, trim_end};

const PACK: &str = "{\"title\":\"My Pack\",\"id\":\"MyPackId\",\"stickers\":[{\"body\":\"smile\",\"url\":\"mxc://x/abc\",\"info\":{\"w\":256,\"h\":128,\"size\":1234,\"mimetype\":\"image/png\",\"thumbnail_url\":\"mxc://x/abc\",\"thumbnail_info\":{\"w\":256,\"h\":128,\"size\":1234,\"mimetype\":\"image/png\"}},\"msgtype\":\"m.sticker\",\"id\":\"st1\"},{\"body\":\"frown\",\"url\":\"mxc://x/def\",\"info\":{\"w\":64,\"h\":32,\"size\":99,\"mimetype\":\"image/webp\",\"thumbnail_url\":\"mxc://x/def\",\"thumbnail_info\":{\"w\":64,\"h\":32,\"size\":99,\"mimetype\":\"image/webp\"}},\"id\":\"st2\"}]}";

fn meta(w: u32, h: u32, size: usize, mimetype: &str) -> MetaData {
    MetaData { w, h, size, mimetype: mimetype.to_string() }
}

fn sticker(id: &str, body: &str, url: &str) -> MauniumSticker {
    MauniumSticker {
        id: id.to_string(),
        body: body.to_string(),
        url: url.to_string(),
        info: meta(1, 2, 3, "image/png"),
    }
}

#[test]
fn pack_identifier_is_lower_case_without_separators() {
    assert_eq!(pack_id("MyPackId"), "mypackid");
    assert_eq!(pack_id("my-pack_id 2"), "mypackid2");
    assert_eq!(pack_id("LINE_Menhera_chan_ENG"), "linemenherachaneng");
    assert_eq!(pack_id(""), "");
    assert_eq!(pack_id("___"), "");
}

#[test]
fn maunium_pack_is_read() {
    let pack = parse_maunium(PACK.as_bytes()).unwrap();
    assert_eq!(
        pack,
        MauniumPack {
            id: "MyPackId".to_string(),
            title: "My Pack".to_string(),
            stickers: vec![
                MauniumSticker {
                    id: "st1".to_string(),
                    body: "smile".to_string(),
                    url: "mxc://x/abc".to_string(),
                    info: meta(256, 128, 1234, "image/png"),
                },
                MauniumSticker {
                    id: "st2".to_string(),
                    body: "frown".to_string(),
                    url: "mxc://x/def".to_string(),
                    info: meta(64, 32, 99, "image/webp"),
                },
            ],
        }
    );
}

#[test]
fn text_that_is_no_pack_gives_the_error() {
    let err = parse_maunium(b"{\"title\":\"x\"}").unwrap_err();
    assert!(err.contains("missing field"), "{err}");
    assert!(parse_maunium(b"").is_err());
    assert!(parse_maunium(b"[]").is_err());
}

#[test]
fn room_pack_has_one_image_per_identifier() {
    let pack = MauniumPack {
        id: "p".to_string(),
        title: "Title".to_string(),
        stickers: vec![
            sticker("a", "first a", "mxc://x/1"),
            sticker("b", "only b", "mxc://x/2"),
            sticker("a", "second a", "mxc://x/3"),
        ],
    };
    let ponies = PoniesPack::from_maunium(&pack);
    assert_eq!(ponies.display_name(), "Title");
    assert_eq!(ponies.len(), 2);
    let (id, image) = ponies.get_index(0).unwrap();
    assert_eq!(id, "a");
    assert_eq!(image.body, "second a");
    assert_eq!(image.url, "mxc://x/3");
    assert_eq!(image.usage, Usage::Sticker);
    let (id, image) = ponies.get_index(1).unwrap();
    assert_eq!(id, "b");
    assert_eq!(image.body, "only b");
    assert!(ponies.get_index(2).is_none());
}

#[test]
fn room_pack_document_is_the_one_of_the_sticker_library() {
    let pack = parse_maunium(PACK.as_bytes()).unwrap();
    let mine = PoniesPack::from_maunium(&pack).print();
    let mine: serde_json::Value = serde_json::from_slice(&mine).unwrap();

    let mut images = indexmap::IndexMap::new();
    for s in &pack.stickers {
        images.insert(
            s.id.clone(),
            ponies::Sticker {
                body: s.body.clone(),
                info: ponies::MetaData {
                    w: s.info.w,
                    h: s.info.h,
                    size: s.info.size,
                    mimetype: s.info.mimetype.clone(),
                },
                url: s.url.clone().into(),
                usage: [ponies::Usage::Sticker].into_iter().collect(),
            },
        );
    }
    let theirs = ponies::StickerPack {
        images,
        pack: ponies::PackInfo { display_name: pack.title.clone(), avatar_url: None },
    };
    assert_eq!(mine, serde_json::to_value(&theirs).unwrap());
}

#[test]
fn room_pack_text() {
    let image = PoniesSticker {
        body: "b".to_string(),
        info: meta(10, 20, 30, "image/png"),
        url: "mxc://x/y".to_string(),
        usage: Usage::Sticker,
    };
    let mut pack = PoniesPack::new("Name".to_string());
    assert_eq!(
        String::from_utf8(pack.print()).unwrap(),
        "{\"images\":{},\"pack\":{\"display_name\":\"Name\",\"avatar_url\":null}}"
    );
    pack.insert("k".to_string(), image.clone());
    assert_eq!(
        String::from_utf8(pack.print()).unwrap(),
        "{\"images\":{\"k\":{\"body\":\"b\",\"info\":{\"w\":10,\"h\":20,\"size\":30,\"mimetype\":\"image/png\"},\"url\":\"mxc://x/y\",\"usage\":[\"sticker\"]}},\"pack\":{\"display_name\":\"Name\",\"avatar_url\":null}}"
    );
    pack.insert("e".to_string(), PoniesSticker { usage: Usage::Emoticon, ..image });
    let text = String::from_utf8(pack.print()).unwrap();
    assert!(text.contains("\"usage\":[\"emoticon\"]"), "{text}");
    assert!(text.find("\"k\":").unwrap() < text.find("\"e\":").unwrap());
}

#[test]
fn text_helpers() {
    assert_eq!(chars_of("aß✅"), vec!['a', 'ß', '✅']);
    assert_eq!(trim_end("  a b \t\n\u{a0}"), "  a b");
    assert_eq!(trim_end(""), "");
    assert_eq!(trim_end(" \n"), "");
    assert_eq!(strip_prefix("hello", "he"), Some("llo"));
    assert_eq!(strip_prefix("hello", "hello"), Some(""));
    assert_eq!(strip_prefix("hello", "hello!"), None);
    assert_eq!(strip_prefix("hello", "el"), None);
    assert_eq!(strip_prefix("ßx", "ß"), Some("x"));
    assert_eq!(strip_prefix("", ""), Some(""));
    assert!(same_text("ab", "ab"));
    assert!(!same_text("ab", "abc"));
    assert!(!same_text("ab", "ac"));
    assert_eq!(retain_alphanumeric("a_b-c 1!ß"), "abc1ß");
}
