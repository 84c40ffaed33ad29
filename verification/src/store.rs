//! The store: what each command does to the text of the list file.
//!
//! The caller reads the file and writes it back; the functions here take the
//! text that was read and give the text to write. Every change reads the
//! whole text, changes the lists in memory and writes the whole text anew.

use vstd::prelude::*;
use crate::collection::ListCollection;
use crate::command::{Command, CommandView};
use crate::error::StoreError;
use crate::json::{deserialize, serialize, stored};
use crate::text::texts;

verus! {

/// What opening the list file gave.
#[derive(Clone, Copy, Debug, PartialEq, Eq, Structural)]
pub enum FileProbe {
    /// The file is there.
    Present,
    /// There is no such file.
    Missing,
    /// The file could not be opened for another reason.
    Unreadable,
}

/// What to do before the list file is read.
#[derive(Clone, Debug, PartialEq, Eq)]
pub enum FileAction {
    /// Nothing: the file is read as it is.
    Keep,
    /// Create the file with this text in it.
    Create(String),
    /// Give up with the failure that opening the file met.
    Fail,
}

/// What the caller owes the user after a command.
#[derive(Clone, Debug, PartialEq, Eq)]
pub enum Reply {
    /// The usage text.
    Usage,
    /// The name of a list and its items.
    Items(String, Vec<String>),
    /// That no list has this name.
    NoSuchList(String),
    /// Nothing to show: this text is to be written to the list file.
    Saved(String),
}

/// The lists after a command, or the name of the list that the command needs
/// and the lists do not hold. Adding a list empties one that exists; removing
/// a list that is not there changes nothing; an item is added to, or taken out
/// of, an existing list only, and the first item that equals it is the one
/// taken out.
pub open spec fn changed(
    command: CommandView,
    lists: Map<Seq<char>, Seq<Seq<char>>>,
) -> Result<Map<Seq<char>, Seq<Seq<char>>>, Seq<char>> {
    match command {
        CommandView::Help => Ok(lists),
        CommandView::ShowList(_) => Ok(lists),
        CommandView::AddList(list) => Ok(lists.insert(list, Seq::empty())),
        CommandView::RemoveList(list) => Ok(lists.remove(list)),
        CommandView::AddItemToList(list, item) => if lists.dom().contains(list) {
            Ok(lists.insert(list, lists[list].push(item)))
        } else {
            Err(list)
        },
        CommandView::RemoveItemFromList(list, item) => if lists.dom().contains(list) {
            Ok(lists.insert(list, lists[list].remove_value(item)))
        } else {
            Err(list)
        },
    }
}

/// What a command that changes the lists returns for the text of the list
/// file: the text to write, which holds the lists after the command; or an
/// error, which names the list that is missing, or says that the text read
/// holds no lists.
pub open spec fn updated(
    command: CommandView,
    contents: Seq<char>,
    r: Result<String, StoreError>,
) -> bool {
    match stored(contents) {
        Some(lists) => match changed(command, lists) {
            Ok(after) => r matches Ok(text) && stored(text@) == Some(after),
            Err(missing) => r matches Err(StoreError::NotFound(name)) && name@ == missing,
        },
        None => r matches Err(StoreError::Serialization(_)),
    }
}

/// What showing a list returns for the text of the list file: the items of
/// the list, or `None` where no list has the name. That a list is missing is
/// no error.
pub open spec fn shown(
    list: Seq<char>,
    contents: Seq<char>,
    r: Result<Option<Vec<String>>, StoreError>,
) -> bool {
    match stored(contents) {
        Some(lists) => if lists.dom().contains(list) {
            r matches Ok(Some(items)) && texts(items@) == lists[list]
        } else {
            r matches Ok(None)
        },
        None => r matches Err(StoreError::Serialization(_)),
    }
}

/// What a command returns for the text of the list file. `Help` asks for the
/// usage text and does not look at the file; `ShowList` asks for the items of
/// the list, or says that there is no such list; every other command asks
/// for the text that holds the lists after it to be written.
pub open spec fn handled(
    command: CommandView,
    contents: Seq<char>,
    r: Result<Reply, StoreError>,
) -> bool {
    match command {
        CommandView::Help => r matches Ok(Reply::Usage),
        CommandView::ShowList(list) => match stored(contents) {
            Some(lists) => if lists.dom().contains(list) {
                r matches Ok(Reply::Items(name, items)) && name@ == list
                    && texts(items@) == lists[list]
            } else {
                r matches Ok(Reply::NoSuchList(name)) && name@ == list
            },
            None => r matches Err(StoreError::Serialization(_)),
        },
        _ => match stored(contents) {
            Some(lists) => match changed(command, lists) {
                Ok(after) => r matches Ok(Reply::Saved(text)) && stored(text@) == Some(after),
                Err(missing) => r matches Err(StoreError::NotFound(name)) && name@ == missing,
            },
            None => r matches Err(StoreError::Serialization(_)),
        },
    }
}

/// Adding a list gives an empty list under that name, whatever the name held
/// before, and leaves every other list as it was; adding it once more changes
/// nothing.
pub proof fn law_add_list_resets(lists: Map<Seq<char>, Seq<Seq<char>>>, list: Seq<char>)
    ensures
        changed(CommandView::AddList(list), lists) matches Ok(after) && {
            &&& after.dom().contains(list)
            &&& after[list] == Seq::<Seq<char>>::empty()
            &&& forall|other: Seq<char>|
                other != list ==> after.dom().contains(other) == lists.dom().contains(other)
                    && after[other] == lists[other]
            &&& changed(CommandView::AddList(list), after) == Ok::<
                Map<Seq<char>, Seq<Seq<char>>>,
                Seq<char>,
            >(after)
        },
{
    let after = lists.insert(list, Seq::<Seq<char>>::empty());
    assert(after.insert(list, Seq::<Seq<char>>::empty()) =~= after);
}

/// A list that was added, then given an item, then added again is empty
/// again: the lists are what they were after the first adding.
pub proof fn law_add_list_overwrites(
    lists: Map<Seq<char>, Seq<Seq<char>>>,
    list: Seq<char>,
    item: Seq<char>,
)
    ensures
        changed(CommandView::AddList(list), lists) matches Ok(added) && changed(
            CommandView::AddItemToList(list, item),
            added,
        ) matches Ok(filled) && {
            &&& filled[list] == seq![item]
            &&& changed(CommandView::AddList(list), filled) == Ok::<
                Map<Seq<char>, Seq<Seq<char>>>,
                Seq<char>,
            >(added)
        },
{
    let added = lists.insert(list, Seq::<Seq<char>>::empty());
    let filled = added.insert(list, added[list].push(item));
    assert(filled[list] =~= seq![item]);
    assert(filled.insert(list, Seq::<Seq<char>>::empty()) =~= added);
}

/// Showing a list of a store that holds no lists says that there is no such
/// list, and is no error.
pub proof fn law_empty_store_shows_none(
    list: Seq<char>,
    contents: Seq<char>,
    r: Result<Option<Vec<String>>, StoreError>,
)
    requires
        stored(contents) == Some(Map::<Seq<char>, Seq<Seq<char>>>::empty()),
        shown(list, contents, r),
    ensures
        r matches Ok(None),
{
}

/// The text of a list file that holds no lists.
pub open spec fn empty_store() -> Seq<char> {
    "{}"@
}

/// Decides what to do before the list file is read: a file that is there is
/// left alone, a missing one is created with the text of an empty store, and
/// any other failure to open it is passed on.
pub fn ensure_db_file_exists(probe: FileProbe) -> (action: FileAction)
    ensures
        match probe {
            FileProbe::Present => action is Keep,
            FileProbe::Missing => action matches FileAction::Create(text) && text@ == empty_store(),
            FileProbe::Unreadable => action is Fail,
        },
{
    match probe {
        FileProbe::Present => FileAction::Keep,
        FileProbe::Missing => FileAction::Create("{}".to_owned()),
        FileProbe::Unreadable => FileAction::Fail,
    }
}

/// Creates the list, or empties it where it exists.
pub fn add_list(contents: &str, list: String) -> (r: Result<String, StoreError>)
    ensures
        updated(CommandView::AddList(list@), contents@, r),
{
    let mut lists = deserialize(contents)?;
    lists.add_list(list);
    serialize(&lists)
}

/// Deletes the list.
pub fn remove_list(contents: &str, list: &str) -> (r: Result<String, StoreError>)
    ensures
        updated(CommandView::RemoveList(list@), contents@, r),
{
    let mut lists = deserialize(contents)?;
    lists.remove_list(list);
    serialize(&lists)
}

/// Appends the item to the list, which must exist.
pub fn add_item_to_list(contents: &str, list: &str, item: String) -> (r: Result<
    String,
    StoreError,
>)
    ensures
        updated(CommandView::AddItemToList(list@, item@), contents@, r),
{
    let mut lists = deserialize(contents)?;
    lists.add_item_to_list(list, item)?;
    serialize(&lists)
}

/// Takes the first item that equals `item` out of the list, which must exist.
pub fn remove_item_from_list(contents: &str, list: &str, item: &str) -> (r: Result<
    String,
    StoreError,
>)
    ensures
        updated(CommandView::RemoveItemFromList(list@, item@), contents@, r),
{
    let mut lists = deserialize(contents)?;
    lists.remove_item_from_list(list, item)?;
    serialize(&lists)
}

/// Looks the list up.
pub fn show_list(contents: &str, list: &str) -> (r: Result<Option<Vec<String>>, StoreError>)
    ensures
        shown(list@, contents@, r),
{
    let lists = deserialize(contents)?;
    match lists.show_list(list) {
        Some(items) => Ok(Some(items.clone())),
        None => Ok(None),
    }
}

/// Does what the command asks with the text of the list file. For a command
/// that does not use the store the text is not looked at.
pub fn handle_command(command: Command, contents: &str) -> (r: Result<Reply, StoreError>)
    ensures
        handled(command@, contents@, r),
{
    match command {
        Command::Help => Ok(Reply::Usage),
        Command::ShowList(list) => {
            match show_list(contents, list.as_str())? {
                Some(items) => Ok(Reply::Items(list, items)),
                None => Ok(Reply::NoSuchList(list)),
            }
        },
        Command::AddList(list) => Ok(Reply::Saved(add_list(contents, list)?)),
        Command::RemoveList(list) => Ok(Reply::Saved(remove_list(contents, list.as_str())?)),
        Command::AddItemToList(list, item) => Ok(
            Reply::Saved(add_item_to_list(contents, list.as_str(), item)?),
        ),
        Command::RemoveItemFromList(list, item) => Ok(
            Reply::Saved(remove_item_from_list(contents, list.as_str(), item.as_str())?),
        ),
    }
}

} // verus!
