//! Paths under the user's home directory where the tool keeps its data.

use vstd::prelude::*;
use vstd::string::*;

verus! {

/// Data directory of the tool under the home directory `home`.
pub fn get_app_data_dir(home: &str) -> (r: String)
    ensures
        r@ == home@ + "/.costa"@,
{
    home.to_owned().concat("/.costa")
}

/// Path of the persisted store document under the home directory
/// `home`.
pub fn get_sotre_path(home: &str) -> (r: String)
    ensures
        r@ == home@ + "/.costa"@ + "/store"@,
{
    get_app_data_dir(home).concat("/store")
}

} // verus!
