//! Decoding of the 16-byte data block read from a contactless card into a
//! typed playback command (`Modus`) or playback modifier (`Modifyer`).
//!
//! A block is accepted only when its first four bytes equal the fixed cookie
//! constant; the remaining fields are taken from fixed byte offsets.  The
//! `Modus` and `Modifyer` tables are keyed on the mode byte and are tried
//! independently; a card matching neither is reported as unknown.

use vstd::prelude::*;

verus! {

/// Magic constant that the first four (big-endian) bytes of a valid card
/// block must form.
pub const CARD_COOKIE: u32 = 0x1337_B347;

/// Value type decoded from a 16-byte card block.  `cookie` always holds
/// [`CARD_COOKIE`]; the other fields come from byte offsets 4..9.
#[derive(Debug, Clone, Copy, PartialEq, Eq, Structural)]
pub struct Card {
    pub cookie: u32,
    pub version: u8,
    pub folder: u8,
    pub mode: u8,
    pub special1: u8,
    pub special2: u8,
}

/// Playback command selected by a card: which folder or track to play and in
/// what order.
#[derive(Debug, Clone, Copy, PartialEq, Eq, Structural)]
pub enum Modus {
    /// Random track from folder.
    RandomSingle(u8),
    /// Full folder in normal order.
    AlbumNormal(u8),
    /// Full folder in random order.
    AlbumShuffle(u8),
    /// Single track from folder.
    Single(u8, u8),
    /// Full folder, saving progress (saving is not implemented downstream).
    AlbumSave(u8),
    /// Random single track out of the range from start to end.
    RandomRangeSingle(u8, u8, u8),
    /// All tracks from start to end in order.
    RangeAlbum(u8, u8, u8),
    /// Random tracks out of the range from start to end.
    RandomRange(u8, u8, u8),
}

/// Playback modifier selected by a card, mutually exclusive with `Modus` only
/// in a correctly-provisioned card set.
#[derive(Debug, Clone, Copy, PartialEq, Eq, Structural)]
pub enum Modifyer {
    /// No modifier is active.
    Inactive,
    AdminMenu,
    /// Stop playback after the given number of minutes.
    SleepTimer(u8),
    FreezeDance,
    Locked,
    Toddler,
    Kindergarten,
    RepeatSingle,
}

/// What a card means to the consumer: a modifier, a playback command, or
/// nothing this device knows.
#[derive(Debug, Clone, Copy, PartialEq, Eq, Structural)]
pub enum CardType {
    Modifyer(Modifyer),
    Modus(Modus),
    Unknown,
}

/// The big-endian 32-bit cookie formed by the first four bytes of a block.
pub open spec fn spec_cookie(block: Seq<u8>) -> u32
    recommends
        block.len() >= 4,
{
    ((block[0] as u32) * 0x100_0000 + (block[1] as u32) * 0x1_0000 + (block[2] as u32) * 0x100
        + (block[3] as u32)) as u32
}

/// The card that a block with a valid cookie decodes to.
pub open spec fn spec_card(block: Seq<u8>) -> Card
    recommends
        block.len() == 16,
{
    Card {
        cookie: CARD_COOKIE,
        version: block[4],
        folder: block[5],
        mode: block[6],
        special1: block[7],
        special2: block[8],
    }
}

/// The `Modus` dispatch table, keyed on the mode byte.
pub open spec fn spec_modus(mode: u8, folder: u8, special1: u8, special2: u8) -> Result<
    Modus,
    (),
> {
    match mode {
        0x01 => Ok(Modus::RandomSingle(folder)),
        0x02 => Ok(Modus::AlbumNormal(folder)),
        0x03 => Ok(Modus::AlbumShuffle(folder)),
        0x04 => Ok(Modus::Single(folder, special1)),
        0x05 => Ok(Modus::AlbumSave(folder)),
        0x07 => Ok(Modus::RandomRangeSingle(folder, special1, special2)),
        0x08 => Ok(Modus::RangeAlbum(folder, special1, special2)),
        0x09 => Ok(Modus::RandomRange(folder, special1, special2)),
        _ => Err(()),
    }
}

/// The `Modifyer` dispatch table, keyed on the mode byte.
pub open spec fn spec_modifyer(mode: u8, folder: u8, special1: u8, special2: u8) -> Result<
    Modifyer,
    (),
> {
    match mode {
        0x00 => Ok(Modifyer::Inactive),
        0xff => Ok(Modifyer::AdminMenu),
        0x01 => Ok(Modifyer::SleepTimer(special1)),
        0x02 => Ok(Modifyer::FreezeDance),
        0x03 => Ok(Modifyer::Locked),
        0x04 => Ok(Modifyer::Toddler),
        0x05 => Ok(Modifyer::Kindergarten),
        0x06 => Ok(Modifyer::RepeatSingle),
        _ => Err(()),
    }
}

/// How a card is surfaced to the consumer: the modifier table is tried
/// first, then the command table; a card matching neither is unknown.
pub open spec fn spec_classify(card: Card) -> CardType {
    if spec_modifyer(card.mode, card.folder, card.special1, card.special2) is Ok {
        CardType::Modifyer(
            spec_modifyer(card.mode, card.folder, card.special1, card.special2)->Ok_0,
        )
    } else if spec_modus(card.mode, card.folder, card.special1, card.special2) is Ok {
        CardType::Modus(spec_modus(card.mode, card.folder, card.special1, card.special2)->Ok_0)
    } else {
        CardType::Unknown
    }
}

impl Card {
    /// Decode a 16-byte block: reject unless the cookie matches, otherwise
    /// extract the fields at their fixed offsets.
    pub fn try_from(value: [u8; 16]) -> (r: Result<Card, ()>)
        ensures
            r is Ok <==> spec_cookie(value@) == CARD_COOKIE,
            r matches Ok(card) ==> card == spec_card(value@),
    {
        // Check the cookie
        let cookie: u32 = (value[0] as u32) * 0x100_0000 + (value[1] as u32) * 0x1_0000 + (
        value[2] as u32) * 0x100 + (value[3] as u32);
        if cookie != CARD_COOKIE {
            return Err(());
        }
        // Extract the rest
        Ok(
            Card {
                cookie,
                version: value[4],
                folder: value[5],
                mode: value[6],
                special1: value[7],
                special2: value[8],
            },
        )
    }

    /// Surface what this card means: `Modifyer` semantics are tried first,
    /// then `Modus` semantics, and a card matching neither table is
    /// `Unknown` (never an error).
    pub fn classify(self) -> (r: CardType)
        ensures
            r == spec_classify(self),
    {
        if let Ok(modifyer) = Modifyer::try_from(self) {
            CardType::Modifyer(modifyer)
        } else if let Ok(modus) = Modus::try_from(self) {
            CardType::Modus(modus)
        } else {
            CardType::Unknown
        }
    }
}

impl Modus {
    /// Look the mode byte of `card` up in the command table.
    pub fn try_from(card: Card) -> (r: Result<Modus, ()>)
        ensures
            r == spec_modus(card.mode, card.folder, card.special1, card.special2),
    {
        Modus::try_from_tuple((card.mode, card.folder, card.special1, card.special2))
    }

    /// Look a `(mode, folder, special1, special2)` tuple up in the command
    /// table.
    pub fn try_from_tuple(value: (u8, u8, u8, u8)) -> (r: Result<Modus, ()>)
        ensures
            r == spec_modus(value.0, value.1, value.2, value.3),
    {
        match value {
            (0x01, folder, _, _) => Ok(Modus::RandomSingle(folder)),
            (0x02, folder, _, _) => Ok(Modus::AlbumNormal(folder)),
            (0x03, folder, _, _) => Ok(Modus::AlbumShuffle(folder)),
            (0x04, folder, track, _) => Ok(Modus::Single(folder, track)),
            (0x05, folder, _, _) => Ok(Modus::AlbumSave(folder)),
            (0x07, folder, start, end) => Ok(Modus::RandomRangeSingle(folder, start, end)),
            (0x08, folder, start, end) => Ok(Modus::RangeAlbum(folder, start, end)),
            (0x09, folder, start, end) => Ok(Modus::RandomRange(folder, start, end)),
            _ => Err(()),
        }
    }
}

impl Modifyer {
    /// Look the mode byte of `card` up in the modifier table.
    pub fn try_from(card: Card) -> (r: Result<Modifyer, ()>)
        ensures
            r == spec_modifyer(card.mode, card.folder, card.special1, card.special2),
    {
        Modifyer::try_from_tuple((card.mode, card.folder, card.special1, card.special2))
    }

    /// Look a `(mode, folder, special1, special2)` tuple up in the modifier
    /// table.
    pub fn try_from_tuple(value: (u8, u8, u8, u8)) -> (r: Result<Modifyer, ()>)
        ensures
            r == spec_modifyer(value.0, value.1, value.2, value.3),
    {
        match value {
            (0x00, _, _, _) => Ok(Modifyer::Inactive),
            (0xff, _, _, _) => Ok(Modifyer::AdminMenu),
            (0x01, _, minutes, _) => Ok(Modifyer::SleepTimer(minutes)),
            (0x02, _, _, _) => Ok(Modifyer::FreezeDance),
            (0x03, _, _, _) => Ok(Modifyer::Locked),
            (0x04, _, _, _) => Ok(Modifyer::Toddler),
            (0x05, _, _, _) => Ok(Modifyer::Kindergarten),
            (0x06, _, _, _) => Ok(Modifyer::RepeatSingle),
            _ => Err(()),
        }
    }
}

/// Outside the overlapping band of mode bytes `0x01..=0x05`, at most one of
/// the two dispatch tables matches a given mode byte.
pub proof fn lemma_mode_tables_disjoint(mode: u8, folder: u8, special1: u8, special2: u8)
    requires
        !(0x01 <= mode <= 0x05),
    ensures
        !(spec_modus(mode, folder, special1, special2) is Ok && spec_modifyer(
            mode,
            folder,
            special1,
            special2,
        ) is Ok),
{
}

} // verus!

