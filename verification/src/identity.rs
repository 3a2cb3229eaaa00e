//! The identity store: the one record that outlives a run, the name by which
//! the user wants to be greeted, and the place where it is kept.
//!
//! The record lives in `<home>/Peekaboo/config.json`. Reading and writing the
//! file, and turning the record into JSON and back, are the caller's part;
//! the path is computed here, once, for both.

use vstd::prelude::*;

verus! {

/// Name of the directory, under the user's home, that holds the record.
pub const CONFIG_DIR_NAME: &'static str = "Peekaboo";

/// Name of the file that holds the record.
pub const CONFIG_FILE_NAME: &'static str = "config.json";

/// What stands between the components of a path.
pub const PATH_SEPARATOR: &'static str = "/";

/// The record: the name by which the user wants to be greeted.
#[derive(Clone, Debug, PartialEq, Eq)]
pub struct UserData {
    pub name: String,
}

/// Mathematical model of [`UserData`].
pub ghost struct UserDataView {
    pub name: Seq<char>,
}

impl View for UserData {
    type V = UserDataView;

    open spec fn view(&self) -> UserDataView {
        UserDataView { name: self.name@ }
    }
}

/// The directory of the record under `home`: `<home>/Peekaboo`.
pub open spec fn config_dir_text(home: Seq<char>) -> Seq<char> {
    home + PATH_SEPARATOR@ + CONFIG_DIR_NAME@
}

/// The file of the record under `home`: `<home>/Peekaboo/config.json`.
pub open spec fn config_path_text(home: Seq<char>) -> Seq<char> {
    home + PATH_SEPARATOR@ + CONFIG_DIR_NAME@ + PATH_SEPARATOR@ + CONFIG_FILE_NAME@
}

/// The file of the record lies directly in the directory of the record.
pub proof fn lemma_config_path_in_dir(home: Seq<char>)
    ensures
        config_path_text(home) == config_dir_text(home) + PATH_SEPARATOR@ + CONFIG_FILE_NAME@,
{
}

/// No two homes share the file of the record.
pub proof fn lemma_config_path_injective(a: Seq<char>, b: Seq<char>)
    requires
        config_path_text(a) == config_path_text(b),
    ensures
        a == b,
{
    let tail = PATH_SEPARATOR@ + CONFIG_DIR_NAME@ + PATH_SEPARATOR@ + CONFIG_FILE_NAME@;
    assert(config_path_text(a) =~= a + tail);
    assert(config_path_text(b) =~= b + tail);
    assert(a.len() == b.len());
    assert(a =~= (a + tail).subrange(0, a.len() as int));
    assert(b =~= (b + tail).subrange(0, b.len() as int));
}

impl UserData {
    /// The record of `name`.
    pub fn new(name: String) -> (user: UserData)
        ensures
            user.name == name,
            user@.name == name@,
    {
        UserData { name }
    }
}

/// The directory of the record under `home`.
pub fn config_dir(home: &str) -> (path: String)
    ensures
        path@ == config_dir_text(home@),
{
    let mut path = String::from_str(home);
    path.append(PATH_SEPARATOR);
    path.append(CONFIG_DIR_NAME);
    path
}

/// The file of the record under `home`.
pub fn config_path(home: &str) -> (path: String)
    ensures
        path@ == config_path_text(home@),
{
    let mut path = config_dir(home);
    path.append(PATH_SEPARATOR);
    path.append(CONFIG_FILE_NAME);
    path
}

} // verus!
