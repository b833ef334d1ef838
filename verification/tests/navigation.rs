use spotify_player::command::Command;
use spotify_player::navigation::handle_navigation_command;

#[test]
fn moves_selection_within_the_list() {
    assert_eq!(handle_navigation_command(Command::SelectNextOrScrollDown, 3, 10, 5), (true, Some(4)));
    assert_eq!(handle_navigation_command(Command::SelectNextOrScrollDown, 9, 10, 5), (true, None));
    assert_eq!(handle_navigation_command(Command::SelectPreviousOrScrollUp, 0, 10, 5), (true, None));
    assert_eq!(handle_navigation_command(Command::SelectPreviousOrScrollUp, 3, 10, 5), (true, Some(2)));
    assert_eq!(handle_navigation_command(Command::PageSelectNextOrScrollDown, 3, 10, 5), (true, Some(8)));
    assert_eq!(handle_navigation_command(Command::PageSelectNextOrScrollDown, 6, 10, 5), (true, Some(9)));
    assert_eq!(handle_navigation_command(Command::PageSelectPreviousOrScrollUp, 3, 10, 5), (true, Some(0)));
    assert_eq!(handle_navigation_command(Command::PageSelectPreviousOrScrollUp, 8, 10, 5), (true, Some(3)));
    assert_eq!(handle_navigation_command(Command::SelectLastOrScrollToBottom, 3, 10, 5), (true, Some(9)));
    assert_eq!(handle_navigation_command(Command::SelectFirstOrScrollToTop, 3, 10, 5), (true, Some(0)));
}

#[test]
fn other_commands_and_empty_lists_are_not_navigation() {
    assert_eq!(handle_navigation_command(Command::Quit, 3, 10, 5), (false, None));
    assert_eq!(handle_navigation_command(Command::SelectFirstOrScrollToTop, 0, 0, 5), (false, None));
}
