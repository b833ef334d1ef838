//! Moving the selection in a list in response to navigation commands.

use vstd::prelude::*;

use crate::command::Command;

verus! {

/// What a navigation command does to the selection `id` in a list of
/// `len` items, with pages of `page_size` rows: `None` when the command is
/// not a navigation command or the list is empty, else the item to select,
/// if the selection moves.
pub open spec fn navigation(command: Command, id: nat, len: nat, page_size: nat) -> Option<Option<nat>> {
    if len == 0 {
        None
    } else {
        match command {
            Command::SelectNextOrScrollDown => Some(
                if id + 1 < len {
                    Some((id + 1) as nat)
                } else {
                    None
                },
            ),
            Command::SelectPreviousOrScrollUp => Some(
                if id > 0 {
                    Some((id - 1) as nat)
                } else {
                    None
                },
            ),
            Command::PageSelectNextOrScrollDown => Some(
                Some(
                    if id + page_size < len - 1 {
                        (id + page_size) as nat
                    } else {
                        (len - 1) as nat
                    },
                ),
            ),
            Command::PageSelectPreviousOrScrollUp => Some(
                Some(
                    if id >= page_size {
                        (id - page_size) as nat
                    } else {
                        0
                    },
                ),
            ),
            Command::SelectLastOrScrollToBottom => Some(Some((len - 1) as nat)),
            Command::SelectFirstOrScrollToTop => Some(Some(0)),
            _ => None,
        }
    }
}

/// Whether `command` was handled as a navigation command, and the item to
/// select, if the selection moves.
pub fn handle_navigation_command(command: Command, id: usize, len: usize, page_size: usize) -> (r: (
    bool,
    Option<usize>,
))
    requires
        command == Command::SelectNextOrScrollDown ==> id + 1 <= usize::MAX,
        command == Command::PageSelectNextOrScrollDown ==> id + page_size <= usize::MAX,
    ensures
        match navigation(command, id as nat, len as nat, page_size as nat) {
            None => !r.0 && r.1 is None,
            Some(target) => r.0 && match target {
                Some(t) => r.1 == Some(t as usize),
                None => r.1 is None,
            },
        },
{
    if len == 0 {
        return (false, None);
    }
    match command {
        Command::SelectNextOrScrollDown => {
            if id + 1 < len {
                (true, Some(id + 1))
            } else {
                (true, None)
            }
        },
        Command::SelectPreviousOrScrollUp => {
            if id > 0 {
                (true, Some(id - 1))
            } else {
                (true, None)
            }
        },
        Command::PageSelectNextOrScrollDown => {
            let target = id + page_size;
            if target < len - 1 {
                (true, Some(target))
            } else {
                (true, Some(len - 1))
            }
        },
        Command::PageSelectPreviousOrScrollUp => {
            if id >= page_size {
                (true, Some(id - page_size))
            } else {
                (true, Some(0))
            }
        },
        Command::SelectLastOrScrollToBottom => (true, Some(len - 1)),
        Command::SelectFirstOrScrollToTop => (true, Some(0)),
        _ => (false, None),
    }
}

/// From a selection inside the list, navigation never selects past its
/// end, and going up never moves the selection down.
pub proof fn law_navigation_stays_in_list(command: Command, id: nat, len: nat, page_size: nat)
    requires
        id < len,
    ensures
        navigation(command, id, len, page_size) matches Some(Some(t)) ==> t < len,
        (command == Command::SelectPreviousOrScrollUp
            || command == Command::PageSelectPreviousOrScrollUp) ==> (navigation(
            command,
            id,
            len,
            page_size,
        ) matches Some(Some(t)) ==> t <= id),
{
}

} // verus!
