//! A to-do list manager: the command grammar of its command line and the
//! rules of its list store.
//!
//! A command line is one, two or three tokens after the program name: a verb
//! (`help`, `add`, `remove`, `show`), the name of a list and, for `add` and
//! `remove`, an item. The lists live in one file as a JSON object from the
//! name of each list to the array of its items; a file without a byte holds
//! no lists, as a file that is not there. The library reads no file:
//! its caller hands it the text of the file and writes back the text that it
//! returns.

pub mod collection;
pub mod command;
pub mod error;
pub mod json;
pub mod store;
pub mod text;

pub use collection::ListCollection;
pub use command::{count_and_collect_args, validate_command, Command};
pub use error::{ParseError, StoreError};
pub use json::{deserialize, serialize};
pub use store::{
    add_item_to_list, add_list, ensure_db_file_exists, handle_command, remove_item_from_list,
    remove_list, show_list, FileAction, FileProbe, Reply,
};
