use riichi_hand::tiles::{
    akadora_man, akadora_pin, all_tiles, any, chun, kyuu_man, kyuu_sou, ryan_man, ton,
};
use riichi_hand::{
    Hand, HandTile, InvalidTileError, Suite, Tile, TilePlacement, TileValue,
};

#[test]
fn should_return_valid_suite_names() {
    let suites = [
        Suite::Manzu,
        Suite::Pinzu,
        Suite::Souzu,
        Suite::Honor,
        Suite::Any,
    ];
    let names = suites.map(|suite| suite.to_string());
    let expected = ["Manzu", "Pinzu", "Souzu", "Honor", "Any"].map(|x| x.to_owned());

    assert_eq!(names, expected);
}

#[test]
fn should_create_valid_tiles() {
    assert!(Tile::new(Suite::Manzu, TileValue(1)).is_ok());
    assert!(Tile::new(Suite::Manzu, TileValue(0)).is_ok());
    assert!(Tile::new(Suite::Manzu, TileValue(2)).is_ok());
    assert!(Tile::new(Suite::Manzu, TileValue(9)).is_ok());
    assert!(Tile::new(Suite::Pinzu, TileValue(0)).is_ok());
    assert!(Tile::new(Suite::Pinzu, TileValue(9)).is_ok());
    assert!(Tile::new(Suite::Souzu, TileValue(0)).is_ok());
    assert!(Tile::new(Suite::Souzu, TileValue(9)).is_ok());
    assert!(Tile::new(Suite::Honor, TileValue(1)).is_ok());
    assert!(Tile::new(Suite::Honor, TileValue(2)).is_ok());
    assert!(Tile::new(Suite::Honor, TileValue(7)).is_ok());
    assert!(Tile::new(Suite::Any, TileValue(0)).is_ok());
}

#[test]
fn should_return_error_on_invalid_tiles() {
    assert!(Tile::new(Suite::Manzu, TileValue(10)).is_err());
    assert!(Tile::new(Suite::Pinzu, TileValue(10)).is_err());
    assert!(Tile::new(Suite::Souzu, TileValue(10)).is_err());
    assert!(Tile::new(Suite::Honor, TileValue(0)).is_err());
    assert!(Tile::new(Suite::Honor, TileValue(8)).is_err());
    assert!(Tile::new(Suite::Any, TileValue(1)).is_err());
    assert!(Tile::new(Suite::Any, TileValue(5)).is_err());
}

#[test]
fn should_return_valid_tile_names() {
    let names: Vec<String> = all_tiles().iter().map(|tile| tile.to_string()).collect();
    let expected = [
        "Akadora man",
        "Ii man",
        "Ryan man",
        "San man",
        "Suu man",
        "Uu man",
        "Rou man",
        "Chii man",
        "Paa man",
        "Kyuu man",
        "Akadora pin",
        "Ii pin",
        "Ryan pin",
        "San pin",
        "Suu pin",
        "Uu pin",
        "Rou pin",
        "Chii pin",
        "Paa pin",
        "Kyuu pin",
        "Akadora sou",
        "Ii sou",
        "Ryan sou",
        "San sou",
        "Suu sou",
        "Uu sou",
        "Rou sou",
        "Chii sou",
        "Paa sou",
        "Kyuu sou",
        "Ton",
        "Nan",
        "Shaa",
        "Pei",
        "Haku",
        "Hatsu",
        "Chun",
        "Any",
    ]
    .map(|x| x.to_owned());

    assert_eq!(names, expected);
}

#[test]
fn should_cycle_through_placements() {
    assert_eq!(TilePlacement::Normal.next(), TilePlacement::Rotated);
    assert_eq!(
        TilePlacement::Rotated.next(),
        TilePlacement::RotatedAndShifted
    );
    assert_eq!(
        TilePlacement::RotatedAndShifted.next(),
        TilePlacement::Normal
    );
}

#[test]
fn should_keep_suite_and_value_of_a_tile() {
    let tile = Tile::new(Suite::Honor, TileValue(7)).unwrap();
    assert_eq!(tile, chun());
    assert_eq!(tile.suite, Suite::Honor);
    assert_eq!(tile.value, TileValue(7));
    assert!(tile.is_valid());
    assert_eq!(tile.name(), "Chun");

    let error = Tile::new(Suite::Honor, TileValue(8)).unwrap_err();
    assert_eq!(error.suite, Suite::Honor);
    assert_eq!(error.value, TileValue(8));
    assert_eq!(error.to_string(), "invalid value: 8 for suite: Honor");
    let error = InvalidTileError::new(Suite::Any, TileValue(255));
    assert_eq!(error.to_string(), "invalid value: 255 for suite: Any");
    assert!(!Tile {
        suite: Suite::Any,
        value: TileValue(1)
    }
    .is_valid());
    assert_eq!(usize::from(TileValue(9)), 9);
    assert_eq!(TileValue(0).to_string(), "0");
    assert_eq!(TileValue::default(), TileValue(0));
}

#[test]
fn should_list_all_tiles_once() {
    let tiles = all_tiles();
    assert_eq!(tiles.len(), 38);
    assert_eq!(tiles[0], akadora_man());
    assert_eq!(tiles[9], kyuu_man());
    assert_eq!(tiles[10], akadora_pin());
    assert_eq!(tiles[29], kyuu_sou());
    assert_eq!(tiles[30], ton());
    assert_eq!(tiles[36], chun());
    assert_eq!(tiles[37], any());
    for (index, tile) in tiles.iter().enumerate() {
        assert!(tile.is_valid());
        assert!(!tiles[..index].contains(tile));
    }
}

#[test]
fn should_show_hand_tiles_with_their_placement() {
    assert_eq!(
        HandTile::new(ryan_man(), TilePlacement::Normal).to_string(),
        "Ryan man"
    );
    assert_eq!(
        HandTile::new(ryan_man(), TilePlacement::Rotated).to_string(),
        "rotated Ryan man"
    );
    assert_eq!(
        HandTile::new(ton(), TilePlacement::RotatedAndShifted).to_string(),
        "rotated and shifted Ton"
    );
}

#[test]
fn should_flatten_the_groups_of_a_hand() {
    let first = vec![
        HandTile::new(ryan_man(), TilePlacement::Normal),
        HandTile::new(ton(), TilePlacement::Rotated),
    ];
    let third = vec![HandTile::new(any(), TilePlacement::RotatedAndShifted)];
    let hand = Hand::new(vec![first.clone(), vec![], third.clone()]);
    assert_eq!(hand.groups(), &vec![first.clone(), vec![], third.clone()]);
    assert_eq!(
        hand.hand_tiles(),
        vec![first[0], first[1], third[0]]
    );
    assert_eq!(hand.tiles(), vec![ryan_man(), ton(), any()]);
    assert_eq!(Hand::new(vec![]).tiles(), Vec::<Tile>::new());
    assert_eq!(Hand::new(vec![]).groups().len(), 0);
}
