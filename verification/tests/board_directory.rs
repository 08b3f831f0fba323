use fediboard::board::Board;
use fediboard::board::BoardDirectory;
use fediboard::board::BoardError;

fn board(id: u128, name: &str) -> Board {
    Board { board_id: id, name: name.to_string() }
}

#[test]
fn finds_board_by_name() {
    let mut directory = BoardDirectory::new();
    directory.add_board(board(1, "tech")).unwrap();
    directory.add_board(board(2, "music")).unwrap();

    let found = directory.find_board_by_name("music").unwrap();
    assert_eq!(found.board_id, 2);
    assert_eq!(found.name, "music");
}

#[test]
fn unknown_board_name_is_not_found() {
    let mut directory = BoardDirectory::new();
    directory.add_board(board(1, "tech")).unwrap();

    let missing = directory.find_board_by_name("cooking");
    assert!(matches!(missing, Err(BoardError::NotFound)));
}

#[test]
fn duplicate_board_name_is_refused() {
    let mut directory = BoardDirectory::new();
    directory.add_board(board(1, "tech")).unwrap();

    let duplicate_name = directory.add_board(board(2, "tech"));
    assert!(matches!(duplicate_name, Err(BoardError::StoreError)));

    let duplicate_id = directory.add_board(board(1, "games"));
    assert!(matches!(duplicate_id, Err(BoardError::StoreError)));

    // The refused boards left the catalog untouched.
    let all = directory.find_all_boards().unwrap();
    assert_eq!(all.len(), 1);
    assert_eq!(all[0].name, "tech");
}

#[test]
fn lists_all_boards_in_catalog_order() {
    let mut directory = BoardDirectory::new();
    directory.add_board(board(1, "tech")).unwrap();
    directory.add_board(board(2, "music")).unwrap();
    directory.add_board(board(3, "games")).unwrap();

    let all = directory.find_all_boards().unwrap();
    assert_eq!(all.len(), 3);
    assert_eq!(all[0].name, "tech");
    assert_eq!(all[1].name, "music");
    assert_eq!(all[2].name, "games");

    let empty = BoardDirectory::new();
    assert_eq!(empty.find_all_boards().unwrap().len(), 0);
}
