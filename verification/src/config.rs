//! Where the player keeps its users' directories.

use crate::text::characters;
use vstd::prelude::*;

verus! {

/// The users' directory, relative to the home directory.
pub open spec fn users_dir() -> Seq<char> {
    "Library/Application Support/Spotify/Users"@
}

/// The users' directory under a given home directory: the two joined by one
/// separator, which is left out where the home directory is empty or ends
/// with one.
pub open spec fn users_dir_under(home: Seq<char>) -> Seq<char> {
    if home.len() == 0 || home.last() == '/' {
        home + users_dir()
    } else {
        home + "/"@ + users_dir()
    }
}

/// Calls `dirs::home_dir`, which looks the home directory up in the
/// environment of the process and, failing that, in the user database.
///
/// Nothing is claimed of the result: it differs from one process to the
/// next. A home directory whose path is not valid Unicode comes as `None`.
#[verifier::external_body]
fn home_dir() -> Option<String> {
    let home = dirs::home_dir()?;
    home.into_os_string().into_string().ok()
}

/// The path of the users' directory under the home directory `home`.
pub fn spotify_dir_under(home: &str) -> (r: String)
    ensures
        r@ == users_dir_under(home@),
{
    let chars = characters(home);
    let mut path = String::from_str(home);
    if chars.len() > 0 && chars[chars.len() - 1] != '/' {
        path.append("/");
    }
    path.append("Library/Application Support/Spotify/Users");
    path
}

/// The path of the users' directory, given what the lookup of the home
/// directory came to: there is one exactly when a home directory was found,
/// and it then lies under that home directory.
pub fn spotify_dir_for(home: Option<String>) -> (r: Option<String>)
    ensures
        r is Some <==> home is Some,
        home matches Some(found) ==> (r matches Some(dir) && dir@ == users_dir_under(found@)),
{
    match home {
        Some(found) => Some(spotify_dir_under(found.as_str())),
        None => None,
    }
}

/// Locates the users' directory of this user, if a home directory is known.
///
/// Which home directory is known, if any, is for the environment to say;
/// whatever it is, the result is what [`spotify_dir_for`] makes of it.
pub fn get_spotify_dir() -> (r: Option<String>)
    ensures
        r matches Some(dir) ==> exists|home: Seq<char>| dir@ == #[trigger] users_dir_under(home),
{
    spotify_dir_for(home_dir())
}

} // verus!
