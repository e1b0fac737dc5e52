use pacman_core::events::{PelletEaten, PlayerAt};
use pacman_core::lines::{find, split_lines};
use pacman_core::location::Location;
use pacman_core::pellets::{
    parse_coordinate, parse_pellet, parse_pellet_type, parse_pellets, player_was_at,
    remove_pellets, try_parse_pellets, Pellet, PelletType, TotalPellets,
};

fn regular(x: i32, y: i32) -> Pellet {
    Pellet { location: Location::new(x, y), kind: PelletType::Regular }
}

fn power(x: i32, y: i32) -> Pellet {
    Pellet { location: Location::new(x, y), kind: PelletType::Power }
}

fn at(x: i32, y: i32) -> PlayerAt {
    PlayerAt { location: Location::new(x, y) }
}

#[test]
fn split_lines_examples() {
    assert_eq!(split_lines(b""), Vec::<(usize, usize)>::new());
    assert_eq!(split_lines(b"ab"), vec![(0, 2)]);
    assert_eq!(split_lines(b"ab\n"), vec![(0, 2)]);
    assert_eq!(split_lines(b"ab\ncd"), vec![(0, 2), (3, 5)]);
    assert_eq!(split_lines(b"ab\r\ncd\r\n"), vec![(0, 2), (4, 6)]);
    assert_eq!(split_lines(b"\n\nx"), vec![(0, 0), (1, 1), (2, 3)]);
    assert_eq!(split_lines(b"ab\r"), vec![(0, 3)]);
    assert_eq!(split_lines(b"\r\n"), vec![(0, 0)]);
    assert_eq!(split_lines(b"a\rb\n"), vec![(0, 3)]);
    assert_eq!(split_lines(b"a\r\r\n"), vec![(0, 2)]);
}

#[test]
fn find_examples() {
    assert_eq!(find(b"a,b,c", 44, 0), 1);
    assert_eq!(find(b"a,b,c", 44, 2), 3);
    assert_eq!(find(b"a,b,c", 44, 4), 5);
    assert_eq!(find(b"a,b,c", 44, 5), 5);
    assert_eq!(find(b"", 44, 0), 0);
}

#[test]
fn coordinates_in_eighths() {
    assert_eq!(parse_coordinate(b"1"), Some(8));
    assert_eq!(parse_coordinate(b"13.5"), Some(108));
    assert_eq!(parse_coordinate(b"-1.5"), Some(-12));
    assert_eq!(parse_coordinate(b"+2"), Some(16));
    assert_eq!(parse_coordinate(b"0"), Some(0));
    assert_eq!(parse_coordinate(b"-0"), Some(0));
    assert_eq!(parse_coordinate(b"00012.50"), Some(100));
    assert_eq!(parse_coordinate(b"5."), Some(40));
    assert_eq!(parse_coordinate(b".5"), Some(4));
    assert_eq!(parse_coordinate(b"-.25"), Some(-2));
}

#[test]
fn coordinates_on_the_lattice() {
    let eighths: Vec<Option<i32>> = [
        "0.0", "0.125", "0.25", "0.375", "0.5", "0.625", "0.75", "0.875", "0.1250", "0.37500000",
    ]
    .iter()
    .map(|s| parse_coordinate(s.as_bytes()))
    .collect();
    assert_eq!(
        eighths,
        vec![Some(0), Some(1), Some(2), Some(3), Some(4), Some(5), Some(6), Some(7), Some(1), Some(3)]
    );
}

#[test]
fn coordinates_off_the_lattice_are_refused() {
    for text in ["0.1", "0.2", "0.3", "1.01", "0.1251", "0.12500001", "0.0001", "2.126", "7.9"] {
        assert_eq!(parse_coordinate(text.as_bytes()), None);
    }
}

#[test]
fn coordinates_that_are_no_numbers_are_refused() {
    for text in ["", ".", "-", "+", "-.", "1e1", "1.2.3", "--1", "+-1", "1-", " 1", "1 ", "a", "0x10", "1,5", "inf", "nan"] {
        assert_eq!(parse_coordinate(text.as_bytes()), None);
    }
}

#[test]
fn coordinates_out_of_range_are_refused() {
    assert_eq!(parse_coordinate(b"33554432"), Some(268435456));
    assert_eq!(parse_coordinate(b"-33554432"), Some(-268435456));
    assert_eq!(parse_coordinate(b"33554431.875"), Some(268435455));
    assert_eq!(parse_coordinate(b"33554432.125"), None);
    assert_eq!(parse_coordinate(b"33554433"), None);
    assert_eq!(parse_coordinate(b"-33554433"), None);
    assert_eq!(parse_coordinate(b"99999999999999999999999999999999999999999"), None);
    assert_eq!(parse_coordinate(b"000000000000000000000000000000000000000001"), Some(8));
}

#[test]
fn pellet_types() {
    assert_eq!(parse_pellet_type(b"Regular"), Some(PelletType::Regular));
    assert_eq!(parse_pellet_type(b"Power"), Some(PelletType::Power));
    for text in ["", "regular", "power", "Regular ", " Power", "Powe", "Powers", "Regulag"] {
        assert_eq!(parse_pellet_type(text.as_bytes()), None);
    }
}

#[test]
fn pellet_lines() {
    assert_eq!(parse_pellet(b"1,4 Regular"), Some(regular(8, 32)));
    assert_eq!(parse_pellet(b"13.5,7 Power"), Some(power(108, 56)));
    assert_eq!(parse_pellet(b"-1,-0.5 Power"), Some(power(-8, -4)));
}

#[test]
fn malformed_pellet_lines_are_refused() {
    for text in [
        "",
        "1,4",
        "1,4 ",
        "1,4 regular",
        "1,4  Regular",
        "1 ,4 Regular",
        "1, 4 Regular",
        " 1,4 Regular",
        "1,4 Power ",
        "1,2,3 Power",
        "1;4 Power",
        "1,4\tPower",
        "x,4 Power",
        "1,0.3 Power",
        ",4 Power",
        "1, Power",
    ] {
        assert_eq!(parse_pellet(text.as_bytes()), None);
    }
}

#[test]
fn pellets_text() {
    assert_eq!(
        try_parse_pellets("1,4 Regular\n2,4 Power\n"),
        Some(vec![regular(8, 32), power(16, 32)])
    );
    assert_eq!(
        parse_pellets("1,4 Regular\r\n2.5,4 Power"),
        vec![regular(8, 32), power(20, 32)]
    );
    assert_eq!(try_parse_pellets(""), Some(Vec::new()));
}

#[test]
fn pellets_text_with_a_malformed_line_is_refused() {
    assert_eq!(try_parse_pellets("1,4 Regular\n\n2,4 Power\n"), None);
    assert_eq!(try_parse_pellets("1,4 Regular\n2,4 Super\n"), None);
    assert_eq!(try_parse_pellets("\n"), None);
    assert_eq!(try_parse_pellets("1,4 Regular\r"), None);
}

#[test]
fn total_pellets_counts_from_nothing() {
    assert_eq!(TotalPellets::default(), TotalPellets(0));
    assert_eq!(TotalPellets(parse_pellets("1,4 Regular\n2,4 Power\n").len()).0, 2);
}

#[test]
fn player_was_at_examples() {
    let places = vec![at(8, 8), at(16, 8)];
    assert!(player_was_at(&places, Location::new(16, 8)));
    assert!(!player_was_at(&places, Location::new(8, 16)));
    assert!(!player_was_at(&Vec::new(), Location::new(8, 8)));
}

#[test]
fn remove_pellets_takes_those_under_the_player() {
    let mut pellets = vec![regular(8, 8), power(16, 8), regular(24, 8), regular(16, 8)];
    let r = remove_pellets(&mut pellets, &vec![at(16, 8)]);
    assert_eq!(pellets, vec![regular(8, 8), regular(24, 8)]);
    assert_eq!(r.eaten, vec![PelletEaten { power: true }, PelletEaten { power: false }]);
    assert!(!r.level_complete);
    assert!(r.munch);
}

#[test]
fn no_munch_after_a_power_pellet() {
    let mut pellets = vec![regular(8, 8), power(16, 8)];
    let r = remove_pellets(&mut pellets, &vec![at(16, 8), at(8, 8)]);
    assert!(pellets.is_empty());
    assert_eq!(r.eaten, vec![PelletEaten { power: false }, PelletEaten { power: true }]);
    assert!(!r.level_complete);
    assert!(!r.munch);
}

#[test]
fn nothing_eaten() {
    let mut pellets = vec![regular(8, 8)];
    let r = remove_pellets(&mut pellets, &vec![at(9, 8)]);
    assert_eq!(pellets, vec![regular(8, 8)]);
    assert!(r.eaten.is_empty());
    assert!(!r.level_complete);
    assert!(!r.munch);
    let r = remove_pellets(&mut pellets, &Vec::new());
    assert!(r.eaten.is_empty());
}

#[test]
fn level_is_complete_once_no_pellet_is_left() {
    let mut pellets = vec![regular(8, 8)];
    let r = remove_pellets(&mut pellets, &vec![at(8, 8)]);
    assert!(pellets.is_empty());
    assert!(!r.level_complete);
    assert!(r.munch);
    let r = remove_pellets(&mut pellets, &vec![at(8, 8)]);
    assert!(r.level_complete);
    assert!(r.eaten.is_empty());
    assert!(!r.munch);
}
