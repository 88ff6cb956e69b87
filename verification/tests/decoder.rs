use rustiebox::card::{Card, CardType, Modifyer, Modus, CARD_COOKIE};

fn block(mode: u8, folder: u8, special1: u8, special2: u8) -> [u8; 16] {
    let mut b = [0u8; 16];
    b[0] = 0x13;
    b[1] = 0x37;
    b[2] = 0xB3;
    b[3] = 0x47;
    b[4] = 0x01;
    b[5] = folder;
    b[6] = mode;
    b[7] = special1;
    b[8] = special2;
    b
}

#[test]
fn decode_round_trip() {
    // A well-formed block: cookie, version 1, folder 5, mode 2.
    let b = block(0x02, 0x05, 0x00, 0x00);
    let card = Card::try_from(b).expect("valid cookie must decode");
    assert_eq!(card.cookie, CARD_COOKIE);
    assert_eq!(card.version, 1);
    assert_eq!(card.folder, 5);
    assert_eq!(card.mode, 2);
    assert_eq!(card.special1, 0);
    assert_eq!(card.special2, 0);
    assert_eq!(Modus::try_from(card), Ok(Modus::AlbumNormal(5)));
}

#[test]
fn altered_cookie_rejected() {
    // Any change to the first four bytes rejects the block, whatever the
    // remaining bytes hold.
    for i in 0..4 {
        let mut b = block(0x02, 0x05, 0x00, 0x00);
        b[i] ^= 0x01;
        assert_eq!(Card::try_from(b), Err(()));
    }
    let mut all_cookie = [0u8; 16];
    all_cookie[0] = 0x13;
    all_cookie[1] = 0x37;
    all_cookie[2] = 0xB3;
    all_cookie[3] = 0x48;
    assert_eq!(Card::try_from(all_cookie), Err(()));
}

#[test]
fn modus_table() {
    let folder = 9;
    let cases: [(u8, Modus); 8] = [
        (0x01, Modus::RandomSingle(folder)),
        (0x02, Modus::AlbumNormal(folder)),
        (0x03, Modus::AlbumShuffle(folder)),
        (0x04, Modus::Single(folder, 7)),
        (0x05, Modus::AlbumSave(folder)),
        (0x07, Modus::RandomRangeSingle(folder, 7, 11)),
        (0x08, Modus::RangeAlbum(folder, 7, 11)),
        (0x09, Modus::RandomRange(folder, 7, 11)),
    ];
    for (mode, expected) in cases {
        assert_eq!(Modus::try_from_tuple((mode, folder, 7, 11)), Ok(expected));
    }
    assert_eq!(Modus::try_from_tuple((0x00, folder, 7, 11)), Err(()));
    assert_eq!(Modus::try_from_tuple((0x06, folder, 7, 11)), Err(()));
    assert_eq!(Modus::try_from_tuple((0x0A, folder, 7, 11)), Err(()));
    assert_eq!(Modus::try_from_tuple((0xFF, folder, 7, 11)), Err(()));
}

#[test]
fn modifyer_table() {
    let cases: [(u8, Modifyer); 8] = [
        (0x00, Modifyer::Inactive),
        (0xFF, Modifyer::AdminMenu),
        (0x01, Modifyer::SleepTimer(30)),
        (0x02, Modifyer::FreezeDance),
        (0x03, Modifyer::Locked),
        (0x04, Modifyer::Toddler),
        (0x05, Modifyer::Kindergarten),
        (0x06, Modifyer::RepeatSingle),
    ];
    for (mode, expected) in cases {
        assert_eq!(Modifyer::try_from_tuple((mode, 0, 30, 0)), Ok(expected));
    }
    assert_eq!(Modifyer::try_from_tuple((0x07, 0, 30, 0)), Err(()));
    assert_eq!(Modifyer::try_from_tuple((0xFE, 0, 30, 0)), Err(()));
}

#[test]
fn mode_tables_disjoint_outside_overlap_band() {
    // Across the whole byte range, the two tables match together only in
    // the known overlapping band 0x01..=0x05.
    for mode in 0u8..=0xFF {
        let modus = Modus::try_from_tuple((mode, 1, 2, 3)).is_ok();
        let modifyer = Modifyer::try_from_tuple((mode, 1, 2, 3)).is_ok();
        if (0x01..=0x05).contains(&mode) {
            assert!(modus && modifyer);
        } else {
            assert!(!(modus && modifyer));
        }
    }
}

#[test]
fn classify_prefers_modifyer_and_reports_unknown() {
    // In the overlapping band the modifier reading wins.
    let card = Card::try_from(block(0x02, 0x05, 0x00, 0x00)).unwrap();
    assert_eq!(card.classify(), CardType::Modifyer(Modifyer::FreezeDance));
    // Outside both tables the card is unknown, not an error.
    let card = Card::try_from(block(0x0A, 0x05, 0x00, 0x00)).unwrap();
    assert_eq!(card.classify(), CardType::Unknown);
    // A pure command byte classifies as a command.
    let card = Card::try_from(block(0x08, 0x05, 0x02, 0x09)).unwrap();
    assert_eq!(card.classify(), CardType::Modus(Modus::RangeAlbum(5, 2, 9)));
    // A pure modifier byte classifies as a modifier.
    let card = Card::try_from(block(0xFF, 0x00, 0x00, 0x00)).unwrap();
    assert_eq!(card.classify(), CardType::Modifyer(Modifyer::AdminMenu));
}
