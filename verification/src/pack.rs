//! Sticker packs: the form in which a pack is fetched for migration, the
//! form in which a room keeps it, and the identifier it is kept under.

use crate::keys::{keys_in_order, lemma_insert_keeps_order, order_after};
use crate::text::{alphanumeric, retain_alphanumeric, retain_spec};
use heck::ToSnakeCase;
use indexmap::IndexMap;
use mstickerlib::matrix::sticker_formats::maunium::{Sticker, StickerPack};
use mstickerlib::matrix::sticker_formats::ponies;
use vstd::prelude::*;

verus! {

/// mstickerlib's maunium `Sticker`, as it is read from a fetched document.
#[verifier::external_type_specification]
#[verifier::external_body]
pub struct ExMauniumSticker(Sticker);

/// mstickerlib's ponies `Sticker`, as it is written to the state of a room.
#[verifier::external_type_specification]
#[verifier::external_body]
pub struct ExPoniesSticker(ponies::Sticker);

/// What `heck::ToSnakeCase::to_snake_case` makes of a string.
pub uninterp spec fn snake_case(name: Seq<char>) -> Seq<char>;

/// Calls `heck::ToSnakeCase::to_snake_case`. The result depends on the
/// characters of `name` alone and is referred to as [`snake_case`].
#[verifier::external_body]
fn to_snake_case(name: &str) -> (snake: String)
    ensures
        snake@ == snake_case(name@),
{
    name.to_snake_case()
}

/// The identifier under which a room keeps the pack called `name`: the
/// name in snake case, without the characters that are not alphanumeric.
pub open spec fn pack_id_spec(name: Seq<char>) -> Seq<char> {
    retain_spec(snake_case(name), |c: char| alphanumeric(c))
}

/// The identifier under which a room keeps the pack called `name`.
pub fn pack_id(name: &str) -> (id: String)
    ensures
        id@ == pack_id_spec(name@),
{
    let snake = to_snake_case(name);
    retain_alphanumeric(snake.as_str())
}

/// The measures of an image.
#[derive(Clone, Debug, PartialEq, Eq)]
pub struct MetaData {
    pub w: u32,
    pub h: u32,
    pub size: usize,
    pub mimetype: String,
}

/// The mathematical value of a [`MetaData`].
pub struct MetaDataView {
    pub w: u32,
    pub h: u32,
    pub size: usize,
    pub mimetype: Seq<char>,
}

impl View for MetaData {
    type V = MetaDataView;

    open spec fn view(&self) -> MetaDataView {
        MetaDataView { w: self.w, h: self.h, size: self.size, mimetype: self.mimetype@ }
    }
}

/// One sticker of a fetched pack, as far as the migration reads it.
#[derive(Clone, Debug, PartialEq, Eq)]
pub struct MauniumSticker {
    pub id: String,
    pub body: String,
    pub url: String,
    pub info: MetaData,
}

/// The mathematical value of a [`MauniumSticker`].
pub struct MauniumStickerView {
    pub id: Seq<char>,
    pub body: Seq<char>,
    pub url: Seq<char>,
    pub info: MetaDataView,
}

impl View for MauniumSticker {
    type V = MauniumStickerView;

    open spec fn view(&self) -> MauniumStickerView {
        MauniumStickerView { id: self.id@, body: self.body@, url: self.url@, info: self.info@ }
    }
}

/// A fetched pack, as far as the migration reads it.
#[derive(Clone, Debug, PartialEq, Eq)]
pub struct MauniumPack {
    pub id: String,
    pub title: String,
    pub stickers: Vec<MauniumSticker>,
}

/// The mathematical value of a [`MauniumPack`].
pub struct MauniumPackView {
    pub id: Seq<char>,
    pub title: Seq<char>,
    pub stickers: Seq<MauniumStickerView>,
}

impl View for MauniumPack {
    type V = MauniumPackView;

    open spec fn view(&self) -> MauniumPackView {
        MauniumPackView {
            id: self.id@,
            title: self.title@,
            stickers: self.stickers@.map_values(|sticker: MauniumSticker| sticker@),
        }
    }
}

/// What `serde_json::from_slice` reads from `bytes` as an
/// `mstickerlib::matrix::sticker_formats::maunium::StickerPack`: the pack,
/// or the text of the error.
pub uninterp spec fn maunium_pack(bytes: Seq<u8>) -> Result<MauniumPackView, Seq<char>>;

/// Moves the fields of mstickerlib's maunium `Sticker` that the migration
/// reads into a [`MauniumSticker`]: the identifier, the body, the address
/// and the measures of the image.
#[verifier::external_body]
fn sticker_read(sticker: Sticker) -> MauniumSticker {
    MauniumSticker {
        id: sticker.id,
        body: sticker.body,
        url: sticker.url.url().clone(),
        info: MetaData {
            w: sticker.info.image_info.w,
            h: sticker.info.image_info.h,
            size: sticker.info.image_info.size,
            mimetype: sticker.info.image_info.mimetype,
        },
    }
}

/// Calls `serde_json::from_slice` for mstickerlib's maunium `StickerPack`
/// and moves the fields that the migration reads into a [`MauniumPack`];
/// an error is handed on as its text. What is read depends on the bytes
/// alone and is referred to as [`maunium_pack`].
#[verifier::external_body]
fn read_maunium(bytes: &[u8]) -> (pack: Result<MauniumPack, String>)
    ensures
        match pack {
            Ok(read) => maunium_pack(bytes@) == Ok::<MauniumPackView, Seq<char>>(read@),
            Err(text) => maunium_pack(bytes@) == Err::<MauniumPackView, Seq<char>>(text@),
        },
{
    match serde_json::from_slice::<StickerPack>(bytes) {
        Ok(pack) => Ok(MauniumPack {
            id: pack.id,
            title: pack.title,
            stickers: pack.stickers.into_iter().map(sticker_read).collect(),
        }),
        Err(err) => Err(err.to_string()),
    }
}

/// The pack that the text `bytes` describes, or the text of the error
/// where it describes none.
pub fn parse_maunium(bytes: &[u8]) -> (pack: Result<MauniumPack, String>)
    ensures
        match pack {
            Ok(read) => maunium_pack(bytes@) == Ok::<MauniumPackView, Seq<char>>(read@),
            Err(text) => maunium_pack(bytes@) == Err::<MauniumPackView, Seq<char>>(text@),
        },
{
    read_maunium(bytes)
}

/// What an image of a pack is used as.
#[derive(Clone, Copy, Debug, PartialEq, Eq)]
pub enum Usage {
    Sticker,
    Emoticon,
}

/// One image of a pack as a room keeps it.
#[derive(Clone, Debug, PartialEq, Eq)]
pub struct PoniesSticker {
    pub body: String,
    pub info: MetaData,
    pub url: String,
    pub usage: Usage,
}

/// The mathematical value of a [`PoniesSticker`].
pub struct PoniesStickerView {
    pub body: Seq<char>,
    pub info: MetaDataView,
    pub url: Seq<char>,
    pub usage: Usage,
}

impl View for PoniesSticker {
    type V = PoniesStickerView;

    open spec fn view(&self) -> PoniesStickerView {
        PoniesStickerView { body: self.body@, info: self.info@, url: self.url@, usage: self.usage }
    }
}

/// The map that holds the images of a pack by their identifiers.
pub type Images = IndexMap<String, PoniesSticker>;

/// The image kept for each identifier in `map`.
pub uninterp spec fn image_of(map: Images) -> Map<Seq<char>, PoniesStickerView>;

/// The identifiers of `map`, in the order in which the map hands them out:
/// the order in which they were first inserted.
pub uninterp spec fn image_order(map: Images) -> Seq<Seq<char>>;

/// `IndexMap::new` makes a map without entries.
#[verifier::external_body]
fn images_new() -> (fresh: Images)
    ensures
        image_of(fresh) == no_images(),
        image_order(fresh) == Seq::<Seq<char>>::empty(),
{
    IndexMap::new()
}

/// `IndexMap::len` counts the entries.
#[verifier::external_body]
fn images_len(map: &Images) -> (n: usize)
    ensures
        n == image_order(*map).len(),
{
    map.len()
}

/// `IndexMap::get_index` hands out the entry at a position in the map's
/// order, and `None` for a position past the last entry.
#[verifier::external_body]
fn images_get_index<'a>(map: &'a Images, index: usize) -> (found: Option<
    (&'a String, &'a PoniesSticker),
>)
    ensures
        match found {
            Some((id, image)) => index < image_order(*map).len() && id@ == image_order(
                *map,
            )[index as int] && image_of(*map).contains_key(id@) && image_of(*map)[id@]
                == image@,
            None => index >= image_order(*map).len(),
        },
{
    map.get_index(index)
}

/// `IndexMap::insert` stores the value for the key. A key that the map
/// already holds keeps its place in the order and gets the new value; a
/// new key goes last.
#[verifier::external_body]
fn images_insert(map: Images, id: String, image: PoniesSticker) -> (after: Images)
    ensures
        image_of(after) == image_of(map).insert(id@, image@),
        image_order(after) == order_after(image_of(map), image_order(map), id@),
{
    let mut map = map;
    map.insert(id, image);
    map
}

/// The pack without images.
pub open spec fn no_images() -> Map<Seq<char>, PoniesStickerView> {
    Map::empty()
}

/// A pack as a room keeps it: its images by identifier, in the order in
/// which the identifiers were first added, the name it is shown with, and
/// the address of its avatar, if it has one.
pub struct PoniesPack {
    images: Images,
    display_name: String,
    avatar_url: Option<String>,
}

/// The mathematical value of a [`PoniesPack`].
pub struct PoniesPackView {
    pub images: Map<Seq<char>, PoniesStickerView>,
    pub order: Seq<Seq<char>>,
    pub display_name: Seq<char>,
    pub avatar_url: Option<Seq<char>>,
}

impl View for PoniesPack {
    type V = PoniesPackView;

    closed spec fn view(&self) -> PoniesPackView {
        PoniesPackView {
            images: image_of(self.images),
            order: image_order(self.images),
            display_name: self.display_name@,
            avatar_url: match self.avatar_url {
                Some(url) => Some(url@),
                None => None,
            },
        }
    }
}

/// What `serde_json::to_vec` writes for the
/// `mstickerlib::matrix::sticker_formats::ponies::StickerPack` that holds
/// the values of `pack`.
pub uninterp spec fn ponies_text(pack: PoniesPackView) -> Seq<u8>;

/// Makes mstickerlib's ponies `Sticker` of the same values, field by
/// field; its set of usages holds the one usage of the image.
#[verifier::external_body]
fn sticker_written(image: &PoniesSticker) -> ponies::Sticker {
    ponies::Sticker {
        body: image.body.clone(),
        info: ponies::MetaData {
            w: image.info.w,
            h: image.info.h,
            size: image.info.size,
            mimetype: image.info.mimetype.clone(),
        },
        url: image.url.clone().into(),
        usage: [match image.usage {
            Usage::Sticker => ponies::Usage::Sticker,
            Usage::Emoticon => ponies::Usage::Emoticon,
        }].into_iter().collect(),
    }
}

/// Makes mstickerlib's ponies `StickerPack` of the same values, the images
/// in the order of the map, and calls `serde_json::to_vec` on it. What is
/// written depends on the values of the pack alone and is referred to as
/// [`ponies_text`].
#[verifier::external_body]
fn write_ponies(pack: &PoniesPack) -> (text: Vec<u8>)
    ensures
        text@ == ponies_text(pack@),
{
    let written = ponies::StickerPack {
        images: pack.images.iter().map(|(id, image)| (id.clone(), sticker_written(image))).collect(),
        pack: ponies::PackInfo {
            display_name: pack.display_name.clone(),
            avatar_url: pack.avatar_url.clone(),
        },
    };
    serde_json::to_vec(&written).unwrap_or_default()
}

/// The image that a sticker of a fetched pack becomes; it is used as a
/// sticker.
pub open spec fn image_spec(sticker: MauniumStickerView) -> PoniesStickerView {
    PoniesStickerView {
        body: sticker.body,
        info: sticker.info,
        url: sticker.url,
        usage: Usage::Sticker,
    }
}

/// The pack that a room keeps for a fetched pack: it is called by the
/// fetched pack's title and has no avatar. The stickers are added one after
/// the other under their identifiers, so that of two stickers with one
/// identifier the later one stays, at the place of the earlier.
pub open spec fn ponies_spec(title: Seq<char>, stickers: Seq<MauniumStickerView>) -> PoniesPackView
    decreases stickers.len(),
{
    if stickers.len() == 0 {
        PoniesPackView {
            images: Map::empty(),
            order: Seq::empty(),
            display_name: title,
            avatar_url: None,
        }
    } else {
        let before = ponies_spec(title, stickers.drop_last());
        let sticker = stickers.last();
        PoniesPackView {
            images: before.images.insert(sticker.id, image_spec(sticker)),
            order: order_after(before.images, before.order, sticker.id),
            display_name: title,
            avatar_url: None,
        }
    }
}

impl PoniesPack {
    #[verifier::type_invariant]
    spec fn inv(self) -> bool {
        keys_in_order(image_of(self.images), image_order(self.images))
    }

    /// The pack called `display_name`, without images and without avatar.
    pub fn new(display_name: String) -> (pack: PoniesPack)
        ensures
            pack@ == (PoniesPackView {
                images: Map::empty(),
                order: Seq::empty(),
                display_name: display_name@,
                avatar_url: None,
            }),
    {
        PoniesPack { images: images_new(), display_name, avatar_url: None }
    }

    /// The text of the pack, as it is written to the state of a room.
    pub fn print(&self) -> (text: Vec<u8>)
        ensures
            text@ == ponies_text(self@),
    {
        write_ponies(self)
    }

    /// The name that the pack is shown with.
    pub fn display_name(&self) -> (name: &String)
        ensures
            name@ == self@.display_name,
    {
        &self.display_name
    }

    /// The number of images. The order lists the identifiers that the pack
    /// has an image for, each once.
    pub fn len(&self) -> (n: usize)
        ensures
            n == self@.order.len(),
            keys_in_order(self@.images, self@.order),
    {
        proof {
            use_type_invariant(self);
        }
        images_len(&self.images)
    }

    /// The image at position `index` of the order, if there is one.
    pub fn get_index(&self, index: usize) -> (entry: Option<(&String, &PoniesSticker)>)
        ensures
            match entry {
                Some((id, image)) => index < self@.order.len() && id@ == self@.order[index as int]
                    && self@.images.contains_key(id@) && self@.images[id@] == image@,
                None => index >= self@.order.len(),
            },
    {
        images_get_index(&self.images, index)
    }

    /// Keeps `image` under `id`, in place of what was kept under it before.
    pub fn insert(&mut self, id: String, image: PoniesSticker)
        ensures
            final(self)@ == (PoniesPackView {
                images: old(self)@.images.insert(id@, image@),
                order: order_after(old(self)@.images, old(self)@.order, id@),
                display_name: old(self)@.display_name,
                avatar_url: old(self)@.avatar_url,
            }),
    {
        proof {
            use_type_invariant(&*self);
        }
        let ghost before = self.images;
        let mut held = images_new();
        std::mem::swap(&mut self.images, &mut held);
        let mut held = images_insert(held, id, image);
        proof {
            lemma_insert_keeps_order(image_of(before), image_order(before), id@, image@);
        }
        std::mem::swap(&mut self.images, &mut held);
    }

    /// The pack that a room keeps for the fetched pack `pack`.
    pub fn from_maunium(pack: &MauniumPack) -> (ponies: PoniesPack)
        ensures
            ponies@ == ponies_spec(pack@.title, pack@.stickers),
    {
        let ghost stickers = pack@.stickers;
        let mut ponies = PoniesPack::new(pack.title.clone());
        let mut i: usize = 0;
        assert(stickers.take(0) == Seq::<MauniumStickerView>::empty());
        while i < pack.stickers.len()
            invariant
                i <= pack.stickers.len(),
                stickers == pack@.stickers,
                stickers.len() == pack.stickers.len(),
                ponies@ == ponies_spec(pack@.title, stickers.take(i as int)),
            decreases pack.stickers.len() - i,
        {
            let sticker = &pack.stickers[i];
            proof {
                assert(stickers.take(i + 1).drop_last() == stickers.take(i as int));
                assert(stickers.take(i + 1).last() == sticker@);
            }
            ponies.insert(
                sticker.id.clone(),
                PoniesSticker {
                    body: sticker.body.clone(),
                    info: MetaData {
                        w: sticker.info.w,
                        h: sticker.info.h,
                        size: sticker.info.size,
                        mimetype: sticker.info.mimetype.clone(),
                    },
                    url: sticker.url.clone(),
                    usage: Usage::Sticker,
                },
            );
            i += 1;
        }
        assert(stickers.take(pack.stickers.len() as int) == stickers);
        ponies
    }
}

} // verus!
