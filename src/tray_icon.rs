//! The tray menu: its fixed semantic items and the table that maps each of
//! them to the opaque identifier the platform gave its menu entry.

use image::ImageFormat;
use vstd::prelude::*;
use vstd::string::*;

verus! {

/// The semantic items of the tray menu, in menu order.
#[derive(Clone, Copy, Debug, PartialEq, Eq, Hash, Structural)]
pub enum TrayIconMenuItem {
    /// Opens the window, or brings it forward.
    Open,
    /// Toggles an indefinite mute.
    Mute,
    /// Mutes until the process next starts.
    MuteUntilExit,
    /// Mutes for a while (no behaviour yet).
    MuteFor,
    /// Stops the client.
    Exit,
}

/// Number of items in the tray menu.
pub const MENU_LEN: usize = 5;

/// Position of `item` in the menu.
pub open spec fn item_index(item: TrayIconMenuItem) -> int {
    match item {
        TrayIconMenuItem::Open => 0,
        TrayIconMenuItem::Mute => 1,
        TrayIconMenuItem::MuteUntilExit => 2,
        TrayIconMenuItem::MuteFor => 3,
        TrayIconMenuItem::Exit => 4,
    }
}

/// The item at position `i` of the menu.
pub open spec fn item_at(i: int) -> TrayIconMenuItem {
    if i == 0 {
        TrayIconMenuItem::Open
    } else if i == 1 {
        TrayIconMenuItem::Mute
    } else if i == 2 {
        TrayIconMenuItem::MuteUntilExit
    } else if i == 3 {
        TrayIconMenuItem::MuteFor
    } else {
        TrayIconMenuItem::Exit
    }
}

/// The text of the menu entry for `item`.
pub open spec fn item_label(item: TrayIconMenuItem) -> Seq<char> {
    match item {
        TrayIconMenuItem::Open => "&Open"@,
        TrayIconMenuItem::Mute => "&Mute"@,
        TrayIconMenuItem::MuteUntilExit => "Mute until &exit"@,
        TrayIconMenuItem::MuteFor => "Mute &for..."@,
        TrayIconMenuItem::Exit => "E&xit"@,
    }
}

impl TrayIconMenuItem {
    /// Position of this item in the menu.
    pub fn index(&self) -> (r: usize)
        ensures
            r as int == item_index(*self),
            r < MENU_LEN,
    {
        match self {
            TrayIconMenuItem::Open => 0,
            TrayIconMenuItem::Mute => 1,
            TrayIconMenuItem::MuteUntilExit => 2,
            TrayIconMenuItem::MuteFor => 3,
            TrayIconMenuItem::Exit => 4,
        }
    }

    /// The item at position `i` of the menu.
    pub fn from_index(i: usize) -> (r: TrayIconMenuItem)
        requires
            i < MENU_LEN,
        ensures
            r == item_at(i as int),
            item_index(r) == i,
    {
        if i == 0 {
            TrayIconMenuItem::Open
        } else if i == 1 {
            TrayIconMenuItem::Mute
        } else if i == 2 {
            TrayIconMenuItem::MuteUntilExit
        } else if i == 3 {
            TrayIconMenuItem::MuteFor
        } else {
            TrayIconMenuItem::Exit
        }
    }

    /// The text of this item's menu entry.
    pub fn label(&self) -> (r: &'static str)
        ensures
            r@ == item_label(*self),
    {
        match self {
            TrayIconMenuItem::Open => "&Open",
            TrayIconMenuItem::Mute => "&Mute",
            TrayIconMenuItem::MuteUntilExit => "Mute until &exit",
            TrayIconMenuItem::MuteFor => "Mute &for...",
            TrayIconMenuItem::Exit => "E&xit",
        }
    }

    /// All items, in menu order.
    pub fn all() -> (r: Vec<TrayIconMenuItem>)
        ensures
            r@.len() == MENU_LEN,
            forall|i: int| 0 <= i < MENU_LEN ==> #[trigger] r@[i] == item_at(i),
    {
        vec![
            TrayIconMenuItem::Open,
            TrayIconMenuItem::Mute,
            TrayIconMenuItem::MuteUntilExit,
            TrayIconMenuItem::MuteFor,
            TrayIconMenuItem::Exit,
        ]
    }
}

/// The item whose identifier is the first at or after position `k` of `ids`
/// to equal `id`, if any.
pub open spec fn lookup_from(ids: Seq<Seq<char>>, id: Seq<char>, k: int) -> Option<TrayIconMenuItem>
    decreases ids.len() - k,
{
    if k < 0 || k >= ids.len() {
        None
    } else if ids[k] == id {
        Some(item_at(k))
    } else {
        lookup_from(ids, id, k + 1)
    }
}

/// The item that the table `ids` gives the identifier `id`, if any.
pub open spec fn lookup(ids: Seq<Seq<char>>, id: Seq<char>) -> Option<TrayIconMenuItem> {
    lookup_from(ids, id, 0)
}

#[verifier::external_type_specification]
#[verifier::external_body]
pub struct ExImageFormat(ImageFormat);

/// A decoded image as 8-bit RGBA pixels, row by row.
pub struct RawImage {
    /// Four bytes per pixel: red, green, blue, alpha.
    pub rgba: Vec<u8>,
    /// Width in pixels.
    pub width: u32,
    /// Height in pixels.
    pub height: u32,
}

/// Failure to decode an image, with the format that was tried (`None` where
/// it was guessed) and the decoder's message.
pub struct ConvertError {
    pub format: Option<ImageFormat>,
    pub err: String,
}

/// The RGBA pixels, width and height that decoding `img` as `format` gives,
/// or `None` where it fails.
pub uninterp spec fn decoded_as(img: Seq<u8>, format: ImageFormat) -> Option<(Seq<u8>, u32, u32)>;

/// Relies on image's `load_from_memory`, which guesses the format and
/// decodes the bytes, and on `DynamicImage::to_rgba8`: the pixels are held
/// four bytes to a pixel in a buffer at least as long as the image needs.
/// The outcome is not a function of the bytes alone: guessing consults
/// format-detection and decoding hooks that any code in the process may
/// register.
#[verifier::external_body]
fn decode_guessing(img: &[u8]) -> (r: Result<RawImage, String>)
    ensures
        r is Ok ==> r->Ok_0.rgba@.len() >= 4 * (r->Ok_0.width as int) * (r->Ok_0.height as int),
{
    match image::load_from_memory(img) {
        Ok(decoded) => {
            let rgba = decoded.to_rgba8();
            let (width, height) = rgba.dimensions();
            Ok(RawImage { rgba: rgba.into_raw(), width, height })
        },
        Err(err) => Err(err.to_string()),
    }
}

/// Relies on image's `load_from_memory_with_format`, which decodes the bytes
/// as the given format, and on `DynamicImage::to_rgba8`: the outcome depends
/// on the bytes and the format alone.
#[verifier::external_body]
fn decode_as(img: &[u8], format: ImageFormat) -> (r: Result<RawImage, String>)
    ensures
        r is Ok <==> decoded_as(img@, format) is Some,
        r is Ok ==> decoded_as(img@, format) == Some((r->Ok_0.rgba@, r->Ok_0.width, r->Ok_0.height)),
{
    match image::load_from_memory_with_format(img, format) {
        Ok(decoded) => {
            let rgba = decoded.to_rgba8();
            let (width, height) = rgba.dimensions();
            Ok(RawImage { rgba: rgba.into_raw(), width, height })
        },
        Err(err) => Err(err.to_string()),
    }
}

/// Decodes the embedded image `img` into raw RGBA pixels, as `format` where
/// one is given and after guessing the format otherwise. With a format the
/// outcome is the one decoding as that format gives; a guessed decode holds at
/// least four bytes per pixel. A failure names the format that was tried.
pub fn convert_image_to_raw(img: &[u8], format: Option<ImageFormat>) -> (r: Result<RawImage, ConvertError>)
    ensures
        match format {
            Some(f) => {
                &&& (r is Ok <==> decoded_as(img@, f) is Some)
                &&& (r is Ok ==> decoded_as(img@, f) == Some((r->Ok_0.rgba@, r->Ok_0.width, r->Ok_0.height)))
            },
            None => r is Ok ==> r->Ok_0.rgba@.len() >= 4 * (r->Ok_0.width as int) * (r->Ok_0.height as int),
        },
        r is Err ==> r->Err_0.format == format,
{
    match format {
        Some(f) => match decode_as(img, f) {
            Ok(raw) => Ok(raw),
            Err(err) => Err(ConvertError { format: Some(f), err }),
        },
        None => match decode_guessing(img) {
            Ok(raw) => Ok(raw),
            Err(err) => Err(ConvertError { format: None, err }),
        },
    }
}

/// No identifier occurs twice in `ids`.
pub open spec fn distinct_ids(ids: Seq<Seq<char>>) -> bool {
    forall|i: int, j: int|
        0 <= i < ids.len() && 0 <= j < ids.len() && i != j ==> #[trigger] ids[i] != #[trigger] ids[j]
}

/// The identifier table of a built tray menu: the `i`-th identifier belongs
/// to the `i`-th menu item. Identifiers are distinct, so the table can be
/// read in both directions.
pub struct TrayIcon {
    /// The identifiers, in menu order.
    ids: Vec<String>,
}

impl View for TrayIcon {
    type V = Seq<Seq<char>>;

    closed spec fn view(&self) -> Seq<Seq<char>> {
        self.ids@.map_values(|s: String| s@)
    }
}

impl TrayIcon {
    #[verifier::type_invariant]
    spec fn inv(&self) -> bool {
        self.ids@.len() == MENU_LEN && distinct_ids(self@)
    }

    /// Builds the table from the identifiers the platform gave the menu
    /// entries, in menu order. There is no table unless there is exactly one
    /// identifier per item and no two are equal.
    pub fn new(ids: Vec<String>) -> (r: Option<TrayIcon>)
        ensures
            r is Some <==> (ids@.len() == MENU_LEN && distinct_ids(ids@.map_values(|s: String| s@))),
            r is Some ==> r->Some_0@ == ids@.map_values(|s: String| s@),
    {
        let ghost view = ids@.map_values(|s: String| s@);
        if ids.len() != MENU_LEN {
            return None;
        }
        let mut i: usize = 0;
        while i < ids.len()
            invariant
                0 <= i <= ids@.len(),
                view == ids@.map_values(|s: String| s@),
                forall|a: int, b: int|
                    0 <= a < i && 0 <= b < ids@.len() && a != b ==> #[trigger] view[a] != #[trigger] view[b],
            decreases ids@.len() - i,
        {
            let mut j: usize = 0;
            while j < ids.len()
                invariant
                    0 <= i < ids@.len(),
                    0 <= j <= ids@.len(),
                    view == ids@.map_values(|s: String| s@),
                    forall|a: int, b: int|
                        0 <= a < i && 0 <= b < ids@.len() && a != b ==> #[trigger] view[a] != #[trigger] view[b],
                    forall|b: int| 0 <= b < j && b != i ==> view[i as int] != #[trigger] view[b],
                decreases ids@.len() - j,
            {
                if j != i && ids[i] == ids[j] {
                    assert(view[i as int] == view[j as int]);
                    return None;
                }
                j = j + 1;
            }
            i = i + 1;
        }
        Some(TrayIcon { ids })
    }
}

/// Reading a well-formed table in one direction and then the other gives
/// back the item: the identifier of an item looks up that item.
pub proof fn lemma_lookup_round_trip(ids: Seq<Seq<char>>, item: TrayIconMenuItem)
    requires
        ids.len() == MENU_LEN,
        distinct_ids(ids),
    ensures
        lookup(ids, ids[item_index(item)]) == Some(item),
{
    reveal_with_fuel(lookup_from, 6);
    let k = item_index(item);
    assert(forall|j: int| 0 <= j < k ==> ids[j] != ids[k]);
}

/// A handle on the tray menu that the dispatcher keeps: it answers which
/// identifier belongs to an item, and which item an identifier denotes.
pub struct TrayIconHandle(TrayIcon);

impl View for TrayIconHandle {
    type V = Seq<Seq<char>>;

    closed spec fn view(&self) -> Seq<Seq<char>> {
        self.0@
    }
}

impl TrayIconHandle {
    /// Wraps a built tray menu.
    pub fn new(tray_icon: TrayIcon) -> (r: Self)
        ensures
            r@ == tray_icon@,
            r@.len() == MENU_LEN,
            distinct_ids(r@),
    {
        proof {
            use_type_invariant(&tray_icon);
        }
        TrayIconHandle(tray_icon)
    }

    /// The identifier of `item`'s menu entry.
    pub fn get_id_of_item(&self, item: TrayIconMenuItem) -> (r: &String)
        ensures
            self@.len() == MENU_LEN,
            distinct_ids(self@),
            r@ == self@[item_index(item)],
    {
        proof {
            use_type_invariant(&self.0);
        }
        &self.0.ids[item.index()]
    }

    /// The item whose menu entry has the identifier `id`, if any.
    pub fn get_item_of_id(&self, id: &str) -> (r: Option<TrayIconMenuItem>)
        ensures
            r == lookup(self@, id@),
            r is Some <==> self@.contains(id@),
            r is Some ==> self@[item_index(r->Some_0)] == id@,
            self@.len() == MENU_LEN,
    {
        proof {
            use_type_invariant(&self.0);
        }
        let target = String::from_str(id);
        let mut k: usize = 0;
        while k < self.0.ids.len()
            invariant
                0 <= k <= self.0.ids@.len(),
                self.0.ids@.len() == MENU_LEN,
                target@ == id@,
                forall|b: int| 0 <= b < k ==> self@[b] != id@,
                lookup(self@, id@) == lookup_from(self@, id@, k as int),
            decreases self.0.ids@.len() - k,
        {
            if self.0.ids[k] == target {
                let item = TrayIconMenuItem::from_index(k);
                assert(self@[k as int] == id@);
                return Some(item);
            }
            assert(lookup_from(self@, id@, k as int) == lookup_from(self@, id@, k + 1));
            k = k + 1;
        }
        proof {
            if self@.contains(id@) {
                let b = choose|b: int| 0 <= b < self@.len() && self@[b] == id@;
                assert(self@[b] != id@);
            }
        }
        None
    }
}

} // verus!
