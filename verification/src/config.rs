//! Where the settings file lives, and what it holds.

use vstd::prelude::*;
use vstd::string::*;
use vstd::slice::slice_to_vec;

verus! {

/// The settings read from `config.toml`.
pub struct Config {
    pub server_url: String,
    pub username: String,
    pub password: String,
}

/// A path as the bytes of its `OsStr` (Unix), so that no file name is lost
/// on the way.
pub open spec fn path_option_view(o: Option<Vec<u8>>) -> Option<Seq<u8>> {
    match o {
        Some(p) => Some(p@),
        None => None,
    }
}

/// `base` joined with the relative path `comp`, as `PathBuf::join` does on
/// Unix: a '/' goes between them unless `base` is empty or already ends
/// with one.
pub open spec fn join_path(base: Seq<u8>, comp: Seq<u8>) -> Seq<u8> {
    if base.len() == 0 {
        comp
    } else if base.last() == 47u8 {
        base + comp
    } else {
        base.push(47u8) + comp
    }
}

/// Joins the relative path `comp` onto `base`.
pub fn join_path_bytes(base: &[u8], comp: &[u8]) -> (r: Vec<u8>)
    ensures
        r@ == join_path(base@, comp@),
{
    let n = base.len();
    let mut r = slice_to_vec(base);
    if n > 0 && base[n - 1] != 47u8 {
        r.push(47u8);
    }
    let mut tail = slice_to_vec(comp);
    r.append(&mut tail);
    r
}

/// The settings file, inside the user's configuration directory `dir`, or
/// inside "~/.config" where there is none.
pub open spec fn config_path_for(dir: Option<Seq<u8>>) -> Seq<u8> {
    let base = match dir {
        Some(d) => d,
        None => "~/.config".spec_bytes(),
    };
    join_path(join_path(base, "adguard-home-toggle".spec_bytes()), "config.toml".spec_bytes())
}

/// The path of the settings file for the configuration directory `dir`.
pub fn config_path_in(dir: Option<Vec<u8>>) -> (r: Vec<u8>)
    ensures
        r@ == config_path_for(path_option_view(dir)),
{
    let base = match dir {
        Some(d) => d,
        None => slice_to_vec("~/.config".as_bytes()),
    };
    let app_dir = join_path_bytes(base.as_slice(), "adguard-home-toggle".as_bytes());
    join_path_bytes(app_dir.as_slice(), "config.toml".as_bytes())
}

/// Calls `dirs::config_dir`, which reads the environment (XDG_CONFIG_HOME,
/// HOME) and gives the user's configuration directory, if one can be found;
/// the path is handed back as the bytes of its `OsString`. Nothing is
/// promised of the outcome: it depends on the environment.
#[verifier::external_body]
fn user_config_dir() -> (r: Option<Vec<u8>>) {
    dirs::config_dir().map(|p| p.into_os_string().into_encoded_bytes())
}

impl Config {
    /// The path of the settings file, as bytes: `adguard-home-toggle/config.toml`
    /// in the user's configuration directory.
    pub fn path() -> (r: Vec<u8>)
        ensures
            exists|dir: Option<Seq<u8>>| r@ == #[trigger] config_path_for(dir),
    {
        let dir = user_config_dir();
        let ghost d = path_option_view(dir);
        let r = config_path_in(dir);
        assert(r@ == config_path_for(d));
        r
    }
}

} // verus!
