//! The operator's stored configuration: registry endpoint and token, the
//! legacy single encryption key, and the keyring; and where its files live.

use vstd::prelude::*;
use vstd::string::StringExecFns;
use crate::error::ErrorKind;
use crate::encoding::{text_result, text_view};
use crate::keyring::{Keyring, KeyringView};

verus! {

/// The configuration kept in the `config.toml` of the configuration
/// directory.
#[derive(Clone, Debug, PartialEq, Eq)]
pub struct Config {
    pub api_endpoint: String,
    pub api_token: String,
    pub app_id: Option<String>,
    pub tier: Option<String>,
    /// The legacy single encryption key, as hexadecimal text.
    pub encryption_key: Option<String>,
    /// The keyring with its active-key pointer.
    pub keyring: Keyring,
}

/// The mathematical content of a [`Config`].
pub struct ConfigView {
    pub api_endpoint: Seq<char>,
    pub api_token: Seq<char>,
    pub app_id: Option<Seq<char>>,
    pub tier: Option<Seq<char>>,
    pub encryption_key: Option<Seq<char>>,
    pub keyring: KeyringView,
}

impl View for Config {
    type V = ConfigView;

    open spec fn view(&self) -> ConfigView {
        ConfigView {
            api_endpoint: self.api_endpoint@,
            api_token: self.api_token@,
            app_id: text_view(self.app_id),
            tier: text_view(self.tier),
            encryption_key: text_view(self.encryption_key),
            keyring: self.keyring@,
        }
    }
}

/// The key chosen for a new release.
#[derive(Clone, Debug, PartialEq, Eq)]
pub struct ReleaseKey {
    /// The keyring id of the key; `None` for the legacy single key.
    pub key_id: Option<String>,
    /// The key as hexadecimal text.
    pub key_hex: String,
}

impl ConfigView {
    /// Which key, if any, a new release is encrypted under.
    ///
    /// Without encryption, none. With it, the keyring's active key, else
    /// the legacy key; and an error rather than no key when neither can be
    /// had.
    pub open spec fn release_key(self, encrypt: bool) -> Result<
        Option<(Option<Seq<char>>, Seq<char>)>,
        ErrorKind,
    > {
        if !encrypt {
            Ok(None)
        } else {
            match self.keyring.release_key(self.encryption_key) {
                Ok(chosen) => Ok(Some(chosen)),
                Err(kind) => Err(kind),
            }
        }
    }

    /// The key that a published release was encrypted under.
    pub open spec fn published_key(self, key_id: Option<Seq<char>>) -> Result<
        Seq<char>,
        ErrorKind,
    > {
        self.keyring.published_key(key_id, self.encryption_key)
    }
}

/// The view of an optional release key.
pub open spec fn release_key_view(key: Option<ReleaseKey>) -> Option<(Option<Seq<char>>, Seq<char>)> {
    match key {
        Some(k) => Some((text_view(k.key_id), k.key_hex@)),
        None => None,
    }
}

/// The view of a release-key resolution.
pub open spec fn release_key_result(r: Result<Option<ReleaseKey>, ErrorKind>) -> Result<
    Option<(Option<Seq<char>>, Seq<char>)>,
    ErrorKind,
> {
    match r {
        Ok(key) => Ok(release_key_view(key)),
        Err(kind) => Err(kind),
    }
}

/// A path with one more component, as on POSIX systems: a separator is
/// put between the two unless the base is empty or already ends in one.
pub open spec fn joined_path(base: Seq<char>, name: Seq<char>) -> Seq<char> {
    if base.len() > 0 && base.last() != '/' {
        base + seq!['/'] + name
    } else {
        base + name
    }
}

/// The configuration directory under a home directory.
pub open spec fn config_dir(home: Seq<char>) -> Seq<char> {
    joined_path(home, ".hotpatch"@)
}

/// The configuration file under a home directory.
pub open spec fn config_file(home: Seq<char>) -> Seq<char> {
    joined_path(config_dir(home), "config.toml"@)
}

/// The private signing key file under a home directory.
pub open spec fn signing_key_file(home: Seq<char>) -> Seq<char> {
    joined_path(config_dir(home), "signing_key.pem"@)
}

/// The public verification key file under a home directory.
pub open spec fn public_key_file(home: Seq<char>) -> Seq<char> {
    joined_path(config_dir(home), "public_key.pem"@)
}

/// `dirs::home_dir`, with the path as text; a home directory whose path is
/// not valid Unicode counts as none. The answer depends on the process
/// environment, so nothing is promised of it.
#[verifier::external_body]
pub(crate) fn home_directory() -> (home: Option<String>) {
    dirs::home_dir()?.into_os_string().into_string().ok()
}

/// Appends a component to a path.
pub fn join_path(base: &str, name: &str) -> (joined: String)
    ensures
        joined@ == joined_path(base@, name@),
{
    let n = base.unicode_len();
    let mut joined = String::from_str(base);
    if n > 0 && base.get_char(n - 1) != '/' {
        proof {
            reveal_strlit("/");
        }
        joined.append("/");
        assert(joined@ =~= base@ + seq!['/']);
    }
    joined.append(name);
    joined
}

impl Config {
    /// The configuration directory for a given home directory, or
    /// `NoHomeDirectory` when there is none.
    pub fn dir_in(home: Option<String>) -> (dir: Result<String, ErrorKind>)
        ensures
            text_result(dir) == match home {
                Some(h) => Ok::<Seq<char>, ErrorKind>(config_dir(h@)),
                None => Err(ErrorKind::NoHomeDirectory),
            },
    {
        match home {
            Some(h) => Ok(join_path(h.as_str(), ".hotpatch")),
            None => Err(ErrorKind::NoHomeDirectory),
        }
    }

    /// A file of the configuration directory, given the directory or the
    /// reason there is none.
    pub fn file_in(dir: Result<String, ErrorKind>, name: &str) -> (file: Result<String, ErrorKind>)
        ensures
            text_result(file) == match dir {
                Ok(d) => Ok::<Seq<char>, ErrorKind>(joined_path(d@, name@)),
                Err(kind) => Err(kind),
            },
    {
        match dir {
            Ok(d) => Ok(join_path(d.as_str(), name)),
            Err(kind) => Err(kind),
        }
    }

    /// The configuration directory of the current user.
    pub fn dir() -> (dir: Result<String, ErrorKind>)
        ensures
            match dir {
                Ok(d) => exists|home: Seq<char>| d@ == #[trigger] config_dir(home),
                Err(kind) => kind == ErrorKind::NoHomeDirectory,
            },
    {
        let home = home_directory();
        let ghost given = text_view(home);
        let dir = Config::dir_in(home);
        proof {
            if let Some(h) = given {
                assert(dir->Ok_0@ == config_dir(h));
            }
        }
        dir
    }

    /// The configuration file of the current user.
    pub fn path() -> (file: Result<String, ErrorKind>)
        ensures
            match file {
                Ok(f) => exists|home: Seq<char>| f@ == #[trigger] config_file(home),
                Err(kind) => kind == ErrorKind::NoHomeDirectory,
            },
    {
        let home = home_directory();
        let ghost given = text_view(home);
        let file = Config::file_in(Config::dir_in(home), "config.toml");
        proof {
            if let Some(h) = given {
                assert(file->Ok_0@ == config_file(h));
            }
        }
        file
    }

    /// The private signing key file of the current user.
    pub fn signing_key_path() -> (file: Result<String, ErrorKind>)
        ensures
            match file {
                Ok(f) => exists|home: Seq<char>| f@ == #[trigger] signing_key_file(home),
                Err(kind) => kind == ErrorKind::NoHomeDirectory,
            },
    {
        let home = home_directory();
        let ghost given = text_view(home);
        let file = Config::file_in(Config::dir_in(home), "signing_key.pem");
        proof {
            if let Some(h) = given {
                assert(file->Ok_0@ == signing_key_file(h));
            }
        }
        file
    }

    /// The public verification key file of the current user.
    pub fn public_key_path() -> (file: Result<String, ErrorKind>)
        ensures
            match file {
                Ok(f) => exists|home: Seq<char>| f@ == #[trigger] public_key_file(home),
                Err(kind) => kind == ErrorKind::NoHomeDirectory,
            },
    {
        let home = home_directory();
        let ghost given = text_view(home);
        let file = Config::file_in(Config::dir_in(home), "public_key.pem");
        proof {
            if let Some(h) = given {
                assert(file->Ok_0@ == public_key_file(h));
            }
        }
        file
    }

    /// The stored configuration, or `NotAuthenticated` when the operator
    /// has never logged in and none was found.
    pub fn load_or_exit(loaded: Option<Config>) -> (config: Result<Config, ErrorKind>)
        ensures
            config == match loaded {
                Some(c) => Ok::<Config, ErrorKind>(c),
                None => Err(ErrorKind::NotAuthenticated),
            },
    {
        match loaded {
            Some(c) => Ok(c),
            None => Err(ErrorKind::NotAuthenticated),
        }
    }

    /// Chooses the key for a new release; see [`ConfigView::release_key`].
    pub fn release_key(&self, encrypt: bool) -> (chosen: Result<Option<ReleaseKey>, ErrorKind>)
        ensures
            release_key_result(chosen) == self@.release_key(encrypt),
    {
        if !encrypt {
            return Ok(None);
        }
        match self.keyring.active_id() {
            Some(id) => {
                if !self.keyring.is_created() {
                    return Err(ErrorKind::KeyringEmpty);
                }
                match self.keyring.get(&id) {
                    Ok(key_hex) => Ok(Some(ReleaseKey { key_id: Some(id), key_hex })),
                    Err(kind) => Err(kind),
                }
            },
            None => match &self.encryption_key {
                Some(key) => Ok(Some(ReleaseKey { key_id: None, key_hex: key.clone() })),
                None => Err(ErrorKind::KeyringEmpty),
            },
        }
    }

    /// Finds the key of a published release; see
    /// [`ConfigView::published_key`].
    pub fn published_key(&self, key_id: &Option<String>) -> (key: Result<String, ErrorKind>)
        ensures
            text_result(key) == self@.published_key(text_view(*key_id)),
    {
        match key_id {
            Some(id) => self.keyring.get(id),
            None => match &self.encryption_key {
                Some(key) => Ok(key.clone()),
                None => Err(ErrorKind::NotFound),
            },
        }
    }
}

} // verus!
