//! Managing the keyring: listing its keys, generating one, selecting the
//! active one, removing one.

use vstd::prelude::*;
use vstd::string::StringExecFns;
use crate::config::{Config, ConfigView};
use crate::encoding::text_view;
use crate::error::ErrorKind;
use crate::keyring::{entries_map, generated_id, KeyEntry, KeyringView};
use crate::utils::encryption::{random_bytes, KEY_LEN};

verus! {

/// What the operator can ask of the keyring.
#[derive(Clone, Debug, PartialEq, Eq)]
pub enum KeyCommands {
    /// List all keys.
    List,
    /// Generate a key, under `id` if given, and make it active if asked.
    Generate { id: Option<String>, active: bool },
    /// Make the key under `id` the active one.
    Select { id: String },
    /// Remove the key under `id`.
    Remove { id: String },
}

/// The mathematical content of a [`KeyCommands`].
pub enum KeyCommandView {
    List,
    Generate { id: Option<Seq<char>>, active: bool },
    Select { id: Seq<char> },
    Remove { id: Seq<char> },
}

impl View for KeyCommands {
    type V = KeyCommandView;

    open spec fn view(&self) -> KeyCommandView {
        match self {
            KeyCommands::List => KeyCommandView::List,
            KeyCommands::Generate { id, active } => KeyCommandView::Generate {
                id: text_view(*id),
                active: *active,
            },
            KeyCommands::Select { id } => KeyCommandView::Select { id: id@ },
            KeyCommands::Remove { id } => KeyCommandView::Remove { id: id@ },
        }
    }
}

/// What a keyring command comes to. Every variant but `Listed` carries the
/// configuration to store in place of the old one.
#[derive(Clone, Debug, PartialEq, Eq)]
pub enum KeysOutcome {
    /// The keys, in no particular order, and the id of the active one.
    Listed { keys: Vec<KeyEntry>, active: Option<String> },
    /// A key was generated and stored under `key_id`.
    Generated { config: Config, key_id: String, active: bool },
    /// The key under `key_id` is now the active one.
    Selected { config: Config, key_id: String },
    /// The key under `key_id` is gone.
    Removed { config: Config, key_id: String },
}

/// The mathematical content of a [`KeysOutcome`].
pub enum KeysOutcomeView {
    Listed { keys: Map<Seq<char>, Seq<char>>, active: Option<Seq<char>> },
    Generated { config: ConfigView, key_id: Seq<char>, active: bool },
    Selected { config: ConfigView, key_id: Seq<char> },
    Removed { config: ConfigView, key_id: Seq<char> },
}

impl View for KeysOutcome {
    type V = KeysOutcomeView;

    open spec fn view(&self) -> KeysOutcomeView {
        match self {
            KeysOutcome::Listed { keys, active } => KeysOutcomeView::Listed {
                keys: entries_map(keys@),
                active: text_view(*active),
            },
            KeysOutcome::Generated { config, key_id, active } => KeysOutcomeView::Generated {
                config: config@,
                key_id: key_id@,
                active: *active,
            },
            KeysOutcome::Selected { config, key_id } => KeysOutcomeView::Selected {
                config: config@,
                key_id: key_id@,
            },
            KeysOutcome::Removed { config, key_id } => KeysOutcomeView::Removed {
                config: config@,
                key_id: key_id@,
            },
        }
    }
}

impl ConfigView {
    /// The same configuration with another keyring.
    pub open spec fn with_keyring(self, keyring: KeyringView) -> ConfigView {
        ConfigView {
            api_endpoint: self.api_endpoint,
            api_token: self.api_token,
            app_id: self.app_id,
            tier: self.tier,
            encryption_key: self.encryption_key,
            keyring,
        }
    }
}

/// How many characters of a key are shown at its start.
pub const KEY_HEAD: usize = 8;

/// From which character on the end of a key is shown.
pub const KEY_TAIL_FROM: usize = 56;

/// What is shown of a key in a listing: its first eight characters and
/// what follows its fifty-sixth, around an ellipsis; nothing of a key too
/// short for that.
pub open spec fn key_preview(key: Seq<char>) -> Seq<char> {
    if key.len() >= KEY_TAIL_FROM {
        key.subrange(0, KEY_HEAD as int) + "..."@ + key.subrange(
            KEY_TAIL_FROM as int,
            key.len() as int,
        )
    } else {
        "****"@
    }
}

/// Masks a key for a listing.
pub fn preview_key(key: &str) -> (shown: String)
    ensures
        shown@ == key_preview(key@),
{
    let n = key.unicode_len();
    if n >= KEY_TAIL_FROM {
        String::from_str(key.substring_char(0, KEY_HEAD)).concat("...").concat(
            key.substring_char(KEY_TAIL_FROM, n),
        )
    } else {
        String::from_str("****")
    }
}

/// What a command comes to on a configuration, `key` being the bytes that
/// are drawn if it generates a key.
pub open spec fn keys_result(command: KeyCommandView, config: ConfigView, key: Seq<u8>) -> Result<
    KeysOutcomeView,
    ErrorKind,
> {
    match command {
        KeyCommandView::List => match config.keyring.keys {
            None => Err(ErrorKind::KeyringEmpty),
            Some(keys) => Ok(KeysOutcomeView::Listed { keys, active: config.keyring.active }),
        },
        KeyCommandView::Generate { id, active } => Ok(
            KeysOutcomeView::Generated {
                config: config.with_keyring(config.keyring.with_generated(id, key, active)),
                key_id: generated_id(id, key),
                active,
            },
        ),
        KeyCommandView::Select { id } => match config.keyring.set_active(id) {
            Err(kind) => Err(kind),
            Ok(keyring) => Ok(
                KeysOutcomeView::Selected { config: config.with_keyring(keyring), key_id: id },
            ),
        },
        KeyCommandView::Remove { id } => match config.keyring.remove(id) {
            Err(kind) => Err(kind),
            Ok(keyring) => Ok(
                KeysOutcomeView::Removed { config: config.with_keyring(keyring), key_id: id },
            ),
        },
    }
}

/// The view of an outcome or a failure kind.
pub open spec fn outcome_view(r: Result<KeysOutcome, ErrorKind>) -> Result<
    KeysOutcomeView,
    ErrorKind,
> {
    match r {
        Ok(outcome) => Ok(outcome@),
        Err(kind) => Err(kind),
    }
}

/// Carries a command out on a configuration, with `key` as the bytes of
/// the key to store if the command generates one.
pub fn execute_with_key(command: KeyCommands, config: Config, key: &[u8; 32]) -> (outcome: Result<
    KeysOutcome,
    ErrorKind,
>)
    ensures
        outcome_view(outcome) == keys_result(command@, config@, key@),
{
    let mut config = config;
    match command {
        KeyCommands::List => {
            if !config.keyring.is_created() {
                return Err(ErrorKind::KeyringEmpty);
            }
            Ok(
                KeysOutcome::Listed {
                    keys: config.keyring.entries(),
                    active: config.keyring.active_id(),
                },
            )
        },
        KeyCommands::Generate { id, active } => {
            let key_id = config.keyring.store_generated(id, key, active);
            Ok(KeysOutcome::Generated { config, key_id, active })
        },
        KeyCommands::Select { id } => match config.keyring.set_active(&id) {
            Err(kind) => Err(kind),
            Ok(()) => Ok(KeysOutcome::Selected { config, key_id: id }),
        },
        KeyCommands::Remove { id } => match config.keyring.remove(&id) {
            Err(kind) => Err(kind),
            Ok(()) => Ok(KeysOutcome::Removed { config, key_id: id }),
        },
    }
}

/// Carries a keyring command out on the stored configuration.
///
/// Without a stored configuration the command fails with
/// `NotAuthenticated`. Otherwise, whatever key bytes are drawn for a
/// `Generate`, the outcome is [`keys_result`] for those 32 bytes; the
/// other commands draw nothing and do not depend on them.
pub fn execute(command: KeyCommands, config: Option<Config>) -> (outcome: Result<
    KeysOutcome,
    ErrorKind,
>)
    ensures
        match config {
            None => outcome == Err::<KeysOutcome, ErrorKind>(ErrorKind::NotAuthenticated),
            Some(c) => exists|key: Seq<u8>|
                key.len() == KEY_LEN && outcome_view(outcome) == #[trigger] keys_result(
                    command@,
                    c@,
                    key,
                ),
        },
{
    match Config::load_or_exit(config) {
        Err(kind) => Err(kind),
        Ok(config) => {
            let key: [u8; 32] = match &command {
                KeyCommands::Generate { .. } => random_bytes::<32>(),
                _ => [0u8; 32],
            };
            let ghost stored = config@;
            let ghost asked = command@;
            let outcome = execute_with_key(command, config, &key);
            proof {
                assert(outcome_view(outcome) == keys_result(asked, stored, key@));
            }
            outcome
        },
    }
}

/// Only generating a key depends on the bytes that are drawn.
pub proof fn lemma_only_generate_draws(
    command: KeyCommandView,
    config: ConfigView,
    one: Seq<u8>,
    other: Seq<u8>,
)
    requires
        !(command is Generate),
    ensures
        keys_result(command, config, one) == keys_result(command, config, other),
{
}

/// Every keyring command that succeeds leaves a configuration that meets
/// the active-key invariant if the one before did, and changes nothing of
/// the configuration but the keyring.
pub proof fn lemma_commands_keep_invariant(command: KeyCommandView, config: ConfigView, key: Seq<u8>)
    requires
        config.keyring.well_formed(),
    ensures
        match keys_result(command, config, key) {
            Ok(KeysOutcomeView::Generated { config: after, key_id, active }) => {
                &&& after.keyring.well_formed()
                &&& after == config.with_keyring(after.keyring)
                &&& after.keyring.contains(key_id)
                &&& active ==> after.keyring.active == Some(key_id)
            },
            Ok(KeysOutcomeView::Selected { config: after, key_id }) => {
                &&& after.keyring.well_formed()
                &&& after == config.with_keyring(after.keyring)
                &&& after.keyring.active == Some(key_id)
            },
            Ok(KeysOutcomeView::Removed { config: after, key_id }) => {
                &&& after.keyring.well_formed()
                &&& after == config.with_keyring(after.keyring)
                &&& !after.keyring.contains(key_id)
            },
            _ => true,
        },
{
    match command {
        KeyCommandView::Generate { id, active } => {
            let after = config.keyring.with_generated(id, key, active);
            assert(after.keys->0.dom().contains(generated_id(id, key)));
        },
        _ => {},
    }
}

} // verus!
