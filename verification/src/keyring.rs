//! The keyring: a local collection of symmetric keys, each under an id,
//! with at most one of them marked active for new releases.

use vstd::prelude::*;
use vstd::slice::slice_subrange;
use crate::encoding::{hex_encode, hex_text, text_result, text_view};
use crate::error::ErrorKind;
use crate::utils::encryption::{random_bytes, KEY_LEN};
use crate::utils::{sha256, sha256_digest};

verus! {

/// One key of the keyring: its id and its 32 bytes as hexadecimal text.
#[derive(Clone, Debug, PartialEq, Eq)]
pub struct KeyEntry {
    pub id: String,
    pub key: String,
}

/// The mathematical content of a keyring.
///
/// `keys` is `None` until a first key is generated: an absent keyring and an
/// emptied one are told apart where the keys are listed and where a
/// release asks for the active key.
pub struct KeyringView {
    pub keys: Option<Map<Seq<char>, Seq<char>>>,
    pub active: Option<Seq<char>>,
}

/// How many leading digest bytes name a key that was generated without an id.
pub const DERIVED_ID_BYTES: usize = 4;

/// The id given to a key that was generated without one: the first four
/// bytes of the key's SHA-256 digest, in hexadecimal.
pub open spec fn derived_key_id(key: Seq<u8>) -> Seq<char> {
    hex_text(sha256(key).subrange(0, DERIVED_ID_BYTES as int))
}

impl KeyringView {
    /// The active-key invariant: an active id, if set, names a stored key.
    pub open spec fn well_formed(self) -> bool {
        self.active matches Some(id) ==> self.contains(id)
    }

    /// Whether a key is stored under `id`.
    pub open spec fn contains(self, id: Seq<char>) -> bool {
        self.keys matches Some(m) && m.dom().contains(id)
    }

    /// Looking a key up: an id under which nothing is stored is not
    /// found, whether the keyring holds other keys, none, or does not
    /// exist.
    pub open spec fn get(self, id: Seq<char>) -> Result<Seq<char>, ErrorKind> {
        if self.contains(id) {
            Ok(self.keys->0[id])
        } else {
            Err(ErrorKind::NotFound)
        }
    }

    /// Marking a stored key active.
    pub open spec fn set_active(self, id: Seq<char>) -> Result<KeyringView, ErrorKind> {
        match self.get(id) {
            Err(kind) => Err(kind),
            Ok(_) => Ok(KeyringView { keys: self.keys, active: Some(id) }),
        }
    }

    /// Removing a stored key; the active mark goes with it if it was on it.
    pub open spec fn remove(self, id: Seq<char>) -> Result<KeyringView, ErrorKind> {
        match self.get(id) {
            Err(kind) => Err(kind),
            Ok(_) => Ok(
                KeyringView {
                    keys: Some(self.keys->0.remove(id)),
                    active: if self.active == Some(id) {
                        None
                    } else {
                        self.active
                    },
                },
            ),
        }
    }

    /// Storing a key under an id, replacing any key already there, and
    /// optionally marking it active.
    pub open spec fn insert(self, id: Seq<char>, key: Seq<char>, make_active: bool) -> KeyringView {
        KeyringView {
            keys: Some(
                match self.keys {
                    None => Map::empty().insert(id, key),
                    Some(m) => m.insert(id, key),
                },
            ),
            active: if make_active {
                Some(id)
            } else {
                self.active
            },
        }
    }

    /// Storing freshly generated key bytes, under the given id or else under
    /// the id derived from the bytes.
    pub open spec fn with_generated(
        self,
        id: Option<Seq<char>>,
        key: Seq<u8>,
        make_active: bool,
    ) -> KeyringView {
        self.insert(generated_id(id, key), hex_text(key), make_active)
    }

    /// The key that a new release is encrypted under, with its id when it
    /// comes from the keyring: the active key if one is marked, else the
    /// legacy single key. Fails closed when neither can be had: with
    /// `KeyringEmpty` where there is no keyring to take the active key from
    /// and where there is no key at all, with `NotFound` where the keyring
    /// does not hold the active id.
    pub open spec fn release_key(self, legacy: Option<Seq<char>>) -> Result<
        (Option<Seq<char>>, Seq<char>),
        ErrorKind,
    > {
        match self.active {
            Some(id) => if self.keys is None {
                Err(ErrorKind::KeyringEmpty)
            } else {
                match self.get(id) {
                    Ok(key) => Ok((Some(id), key)),
                    Err(kind) => Err(kind),
                }
            },
            None => match legacy {
                Some(key) => Ok((None, key)),
                None => Err(ErrorKind::KeyringEmpty),
            },
        }
    }

    /// The key that an already published release was encrypted under: the
    /// one stored under its key id, or the legacy single key when it
    /// carries none.
    pub open spec fn published_key(
        self,
        key_id: Option<Seq<char>>,
        legacy: Option<Seq<char>>,
    ) -> Result<Seq<char>, ErrorKind> {
        match key_id {
            Some(id) => self.get(id),
            None => match legacy {
                Some(key) => Ok(key),
                None => Err(ErrorKind::NotFound),
            },
        }
    }
}

/// The id a generated key is stored under.
pub open spec fn generated_id(id: Option<Seq<char>>, key: Seq<u8>) -> Seq<char> {
    match id {
        Some(given) => given,
        None => derived_key_id(key),
    }
}

/// The map that a sequence of entries spells, later entries winning.
pub open spec fn entries_map(entries: Seq<KeyEntry>) -> Map<Seq<char>, Seq<char>>
    decreases entries.len(),
{
    if entries.len() == 0 {
        Map::empty()
    } else {
        entries_map(entries.drop_last()).insert(entries.last().id@, entries.last().key@)
    }
}

/// Whether no id occurs twice.
pub open spec fn distinct_ids(entries: Seq<KeyEntry>) -> bool {
    forall|i: int, j: int|
        0 <= i < j < entries.len() ==> (#[trigger] entries[i]).id@ != (#[trigger] entries[j]).id@
}

/// An id is in the map exactly when some entry carries it.
pub proof fn lemma_entries_map_dom(entries: Seq<KeyEntry>, id: Seq<char>)
    ensures
        entries_map(entries).dom().contains(id) <==> exists|i: int|
            0 <= i < entries.len() && (#[trigger] entries[i]).id@ == id,
    decreases entries.len(),
{
    if entries.len() > 0 {
        let front = entries.drop_last();
        lemma_entries_map_dom(front, id);
        if entries_map(entries).dom().contains(id) {
            if entries.last().id@ == id {
                assert(entries[entries.len() - 1].id@ == id);
            } else {
                let i = choose|i: int| 0 <= i < front.len() && (#[trigger] front[i]).id@ == id;
                assert(entries[i].id@ == id);
            }
        }
        if exists|i: int| 0 <= i < entries.len() && (#[trigger] entries[i]).id@ == id {
            let i = choose|i: int| 0 <= i < entries.len() && (#[trigger] entries[i]).id@ == id;
            if i < entries.len() - 1 {
                assert(front[i].id@ == id);
            }
        }
    }
}

/// With distinct ids, each entry's key is what the map holds under its id.
pub proof fn lemma_entries_map_value(entries: Seq<KeyEntry>, i: int)
    requires
        distinct_ids(entries),
        0 <= i < entries.len(),
    ensures
        entries_map(entries).dom().contains(entries[i].id@),
        entries_map(entries)[entries[i].id@] == entries[i].key@,
    decreases entries.len(),
{
    let front = entries.drop_last();
    if i < entries.len() - 1 {
        assert(distinct_ids(front)) by {
            assert forall|a: int, b: int| 0 <= a < b < front.len() implies (#[trigger] front[a]).id@
                != (#[trigger] front[b]).id@ by {
                assert(entries[a].id@ != entries[b].id@);
            }
        }
        lemma_entries_map_value(front, i);
        assert(front[i] == entries[i]);
        assert(entries[i].id@ != entries[entries.len() - 1].id@);
    }
}

/// With distinct ids, taking an entry out takes exactly its id out of the map.
pub proof fn lemma_entries_map_remove(entries: Seq<KeyEntry>, i: int)
    requires
        distinct_ids(entries),
        0 <= i < entries.len(),
    ensures
        distinct_ids(entries.remove(i)),
        entries_map(entries.remove(i)) =~= entries_map(entries).remove(entries[i].id@),
    decreases entries.len(),
{
    let rest = entries.remove(i);
    assert(distinct_ids(rest)) by {
        assert forall|a: int, b: int| 0 <= a < b < rest.len() implies (#[trigger] rest[a]).id@ != (
        #[trigger] rest[b]).id@ by {
            let a2 = if a < i { a } else { a + 1 };
            let b2 = if b < i { b } else { b + 1 };
            assert(rest[a] == entries[a2]);
            assert(rest[b] == entries[b2]);
            assert(entries[a2].id@ != entries[b2].id@);
        }
    }
    let front = entries.drop_last();
    if i == entries.len() - 1 {
        assert(rest =~= front);
        lemma_entries_map_dom(front, entries[i].id@);
        if entries_map(front).dom().contains(entries[i].id@) {
            let j = choose|j: int| 0 <= j < front.len() && (#[trigger] front[j]).id@ == entries[i].id@;
            assert(entries[j].id@ != entries[i].id@);
        }
    } else {
        assert(distinct_ids(front)) by {
            assert forall|a: int, b: int| 0 <= a < b < front.len() implies (#[trigger] front[a]).id@
                != (#[trigger] front[b]).id@ by {
                assert(entries[a].id@ != entries[b].id@);
            }
        }
        lemma_entries_map_remove(front, i);
        assert(rest.drop_last() =~= front.remove(i));
        assert(rest.last() == entries.last());
        assert(front[i] == entries[i]);
        assert(entries[i].id@ != entries[entries.len() - 1].id@);
    }
}

/// Appending an entry under a new id keeps the ids distinct and stores it.
pub proof fn lemma_entries_map_push(entries: Seq<KeyEntry>, entry: KeyEntry)
    requires
        distinct_ids(entries),
        !entries_map(entries).dom().contains(entry.id@),
    ensures
        distinct_ids(entries.push(entry)),
        entries_map(entries.push(entry)) == entries_map(entries).insert(entry.id@, entry.key@),
{
    let grown = entries.push(entry);
    assert(grown.drop_last() =~= entries);
    assert forall|a: int, b: int| 0 <= a < b < grown.len() implies (#[trigger] grown[a]).id@ != (
    #[trigger] grown[b]).id@ by {
        if b == entries.len() {
            lemma_entries_map_dom(entries, entry.id@);
            assert(entries[a] == grown[a]);
        } else {
            assert(entries[a].id@ != entries[b].id@);
        }
    }
}

/// A persisted collection of symmetric keys with one active-key pointer.
#[derive(Debug, PartialEq, Eq)]
pub struct Keyring {
    created: bool,
    entries: Vec<KeyEntry>,
    active: Option<String>,
}

impl View for Keyring {
    type V = KeyringView;

    closed spec fn view(&self) -> KeyringView {
        KeyringView {
            keys: if self.created {
                Some(entries_map(self.entries@))
            } else {
                None
            },
            active: text_view(self.active),
        }
    }
}

/// A copy of `entries` without the entry at `skip`, if one is given.
fn copy_without(entries: &Vec<KeyEntry>, skip: Option<usize>) -> (kept: Vec<KeyEntry>)
    requires
        skip matches Some(i) ==> i < entries@.len(),
    ensures
        kept@ == match skip {
            Some(i) => entries@.remove(i as int),
            None => entries@,
        },
{
    let mut kept: Vec<KeyEntry> = Vec::new();
    let mut j: usize = 0;
    while j < entries.len()
        invariant
            j <= entries@.len(),
            skip matches Some(i) ==> i < entries@.len(),
            kept@ == match skip {
                Some(i) => if j <= i {
                    entries@.subrange(0, j as int)
                } else {
                    entries@.subrange(0, j as int).remove(i as int)
                },
                None => entries@.subrange(0, j as int),
            },
        decreases entries@.len() - j,
    {
        let skipped = match skip {
            Some(i) => i == j,
            None => false,
        };
        if !skipped {
            kept.push(KeyEntry { id: entries[j].id.clone(), key: entries[j].key.clone() });
        }
        proof {
            let before = entries@.subrange(0, j as int);
            let after = entries@.subrange(0, j + 1);
            assert(after =~= before.push(entries@[j as int]));
            match skip {
                Some(i) => {
                    if j < i {
                    } else if j == i {
                        assert(after.remove(i as int) =~= before);
                    } else {
                        assert(after.remove(i as int) =~= before.remove(i as int).push(
                            entries@[j as int],
                        ));
                    }
                },
                None => {},
            }
        }
        j += 1;
    }
    proof {
        assert(entries@.subrange(0, entries@.len() as int) =~= entries@);
    }
    kept
}

impl Clone for Keyring {
    fn clone(&self) -> (copy: Keyring)
        ensures
            copy@ == self@,
    {
        proof {
            use_type_invariant(self);
        }
        Keyring {
            created: self.created,
            entries: copy_without(&self.entries, None),
            active: match &self.active {
                Some(id) => Some(id.clone()),
                None => None,
            },
        }
    }
}

impl Keyring {
    #[verifier::type_invariant]
    spec fn inv(&self) -> bool {
        &&& distinct_ids(self.entries@)
        &&& !self.created ==> self.entries@.len() == 0
    }

    /// A keyring that has never held a key.
    pub fn new() -> (ring: Keyring)
        ensures
            ring@ == (KeyringView { keys: None, active: None }),
    {
        Keyring { created: false, entries: Vec::new(), active: None }
    }

    /// Rebuilds a keyring from persisted parts, taken as they are: the
    /// active id is not checked against the keys, so that a damaged store
    /// can still be loaded and then fails closed when its active key is
    /// asked for. Of two entries under one id the later wins.
    pub fn restore(entries: Option<Vec<KeyEntry>>, active: Option<String>) -> (ring: Keyring)
        ensures
            ring@ == (KeyringView {
                keys: match entries {
                    Some(e) => Some(entries_map(e@)),
                    None => None,
                },
                active: text_view(active),
            }),
    {
        let mut ring = Keyring { created: entries.is_some(), entries: Vec::new(), active: None };
        if let Some(list) = entries {
            let mut i: usize = 0;
            while i < list.len()
                invariant
                    i <= list@.len(),
                    ring@.keys == Some(entries_map(list@.subrange(0, i as int))),
                    ring@.active is None,
                decreases list@.len() - i,
            {
                proof {
                    let upto = list@.subrange(0, i + 1);
                    assert(upto.drop_last() =~= list@.subrange(0, i as int));
                    assert(upto.last() == list@[i as int]);
                }
                ring.insert(list[i].id.clone(), list[i].key.clone(), false);
                i += 1;
            }
            proof {
                assert(list@.subrange(0, list@.len() as int) =~= list@);
            }
        }
        proof {
            use_type_invariant(&ring);
        }
        ring.active = active;
        ring
    }

    /// The position of the entry under `id`, if there is one.
    fn position(&self, id: &String) -> (at: Option<usize>)
        ensures
            match at {
                Some(i) => i < self.entries@.len() && self.entries@[i as int].id@ == id@,
                None => !entries_map(self.entries@).dom().contains(id@),
            },
    {
        let mut i: usize = 0;
        while i < self.entries.len()
            invariant
                i <= self.entries@.len(),
                forall|j: int| 0 <= j < i ==> (#[trigger] self.entries@[j]).id@ != id@,
            decreases self.entries@.len() - i,
        {
            if self.entries[i].id == *id {
                return Some(i);
            }
            i += 1;
        }
        proof {
            lemma_entries_map_dom(self.entries@, id@);
        }
        None
    }

    /// Whether any keyring exists, even an emptied one.
    pub fn is_created(&self) -> (created: bool)
        ensures
            created == (self@.keys is Some),
    {
        self.created
    }

    /// The id of the active key, if one is marked.
    pub fn active_id(&self) -> (id: Option<String>)
        ensures
            text_view(id) == self@.active,
    {
        match &self.active {
            Some(id) => Some(id.clone()),
            None => None,
        }
    }

    /// Looks up the key stored under `id`.
    ///
    /// Fails with `NotFound` when no key is stored under the id.
    pub fn get(&self, id: &String) -> (key: Result<String, ErrorKind>)
        ensures
            text_result(key) == self@.get(id@),
    {
        proof {
            use_type_invariant(&*self);
        }
        match self.position(id) {
            None => Err(ErrorKind::NotFound),
            Some(i) => {
                proof {
                    lemma_entries_map_value(self.entries@, i as int);
                }
                Ok(self.entries[i].key.clone())
            },
        }
    }

    /// Marks the key under `id` active.
    ///
    /// Fails with `NotFound`, leaving the keyring as it was, when no key is
    /// stored under the id.
    pub fn set_active(&mut self, id: &String) -> (done: Result<(), ErrorKind>)
        ensures
            match old(self)@.set_active(id@) {
                Ok(after) => done is Ok && final(self)@ == after,
                Err(kind) => done == Err::<(), ErrorKind>(kind) && final(self)@ == old(self)@,
            },
    {
        proof {
            use_type_invariant(&*self);
        }
        match self.position(id) {
            None => Err(ErrorKind::NotFound),
            Some(i) => {
                proof {
                    lemma_entries_map_value(self.entries@, i as int);
                }
                self.active = Some(id.clone());
                Ok(())
            },
        }
    }

    /// Removes the key under `id`, clearing the active pointer if it
    /// pointed there.
    ///
    /// Fails with `NotFound`, leaving the keyring as it was, when no key is
    /// stored under the id.
    pub fn remove(&mut self, id: &String) -> (done: Result<(), ErrorKind>)
        ensures
            match old(self)@.remove(id@) {
                Ok(after) => done is Ok && final(self)@ == after,
                Err(kind) => done == Err::<(), ErrorKind>(kind) && final(self)@ == old(self)@,
            },
    {
        proof {
            use_type_invariant(&*self);
        }
        match self.position(id) {
            None => Err(ErrorKind::NotFound),
            Some(i) => {
                proof {
                    lemma_entries_map_value(self.entries@, i as int);
                    lemma_entries_map_remove(self.entries@, i as int);
                }
                let was_active = match &self.active {
                    Some(a) => *a == *id,
                    None => false,
                };
                self.entries = copy_without(&self.entries, Some(i));
                if was_active {
                    self.active = None;
                }
                Ok(())
            },
        }
    }

    /// Stores `key` under `id`, replacing any key already there, and marks
    /// it active if asked.
    pub fn insert(&mut self, id: String, key: String, make_active: bool)
        ensures
            final(self)@ == old(self)@.insert(id@, key@, make_active),
    {
        proof {
            use_type_invariant(&*self);
        }
        let at = self.position(&id);
        let mut kept = copy_without(&self.entries, at);
        if make_active {
            self.active = Some(id.clone());
        }
        let entry = KeyEntry { id, key };
        proof {
            if let Some(i) = at {
                lemma_entries_map_remove(self.entries@, i as int);
            }
            lemma_entries_map_push(kept@, entry);
            assert(entries_map(kept@).insert(entry.id@, entry.key@) =~= (match old(self)@.keys {
                None => Map::empty().insert(entry.id@, entry.key@),
                Some(m) => m.insert(entry.id@, entry.key@),
            }));
        }
        kept.push(entry);
        self.created = true;
        self.entries = kept;
    }

    /// Stores the given key bytes as a generated key: under `id` if one is
    /// given, else under the id derived from the bytes. Returns the id used.
    pub fn store_generated(&mut self, id: Option<String>, key: &[u8; 32], make_active: bool) -> (used:
        String)
        ensures
            used@ == generated_id(text_view(id), key@),
            final(self)@ == old(self)@.with_generated(text_view(id), key@, make_active),
    {
        let key_hex = hex_encode(key.as_slice());
        let key_id = match id {
            Some(given) => given,
            None => {
                let digest = sha256_digest(key.as_slice());
                hex_encode(slice_subrange(digest.as_slice(), 0, DERIVED_ID_BYTES))
            },
        };
        self.insert(key_id.clone(), key_hex, make_active);
        key_id
    }

    /// Generates a key of 32 random bytes and stores it, under `id` if one
    /// is given, else under the id derived from the key. Returns the id
    /// used.
    ///
    /// Whatever bytes were drawn, the keyring afterwards is the old one
    /// with that key stored, and the returned id names it.
    pub fn generate(&mut self, id: Option<String>, make_active: bool) -> (used: String)
        ensures
            exists|key: Seq<u8>|
                {
                    &&& key.len() == KEY_LEN
                    &&& used@ == generated_id(text_view(id), key)
                    &&& final(self)@ == #[trigger] old(self)@.with_generated(
                        text_view(id),
                        key,
                        make_active,
                    )
                },
            final(self)@.contains(used@),
            make_active ==> final(self)@.active == Some(used@),
            old(self)@.well_formed() ==> final(self)@.well_formed(),
    {
        let key: [u8; 32] = random_bytes::<32>();
        let used = self.store_generated(id, &key, make_active);
        proof {
            assert(final(self)@ == old(self)@.with_generated(text_view(id), key@, make_active));
        }
        used
    }

    /// The stored entries, in no particular order.
    pub fn entries(&self) -> (all: Vec<KeyEntry>)
        ensures
            distinct_ids(all@),
            self@.keys matches Some(m) ==> m == entries_map(all@),
            self@.keys is None ==> all@.len() == 0,
    {
        proof {
            use_type_invariant(self);
        }
        copy_without(&self.entries, None)
    }
}

/// Generating a key, whatever bytes are drawn and whether or not it is made
/// active at once, and then selecting the id it was stored under, succeeds
/// and leaves that id active; the keyring then meets the active-key
/// invariant.
pub proof fn lemma_generate_then_select(
    ring: KeyringView,
    id: Option<Seq<char>>,
    key: Seq<u8>,
    make_active: bool,
)
    ensures
        ({
            let used = generated_id(id, key);
            let selected = ring.with_generated(id, key, make_active).set_active(used);
            &&& selected is Ok
            &&& selected->Ok_0.active == Some(used)
            &&& selected->Ok_0.get(used) == Ok::<Seq<char>, ErrorKind>(hex_text(key))
            &&& selected->Ok_0.well_formed()
        }),
{
    let used = generated_id(id, key);
    let stored = ring.with_generated(id, key, make_active);
    assert(stored.keys->0.dom().contains(used));
}

/// Removing the active key succeeds, takes the key out and clears the
/// active pointer.
pub proof fn lemma_remove_active_clears(ring: KeyringView, id: Seq<char>)
    requires
        ring.active == Some(id),
        ring.contains(id),
    ensures
        ring.remove(id) is Ok,
        ring.remove(id)->Ok_0.active is None,
        !ring.remove(id)->Ok_0.contains(id),
        ring.remove(id)->Ok_0.well_formed(),
{
}

/// Looking up, selecting or removing an id under which nothing is stored
/// fails with `NotFound`, in every state of the keyring.
/// ([`Keyring::set_active`] and [`Keyring::remove`] leave the keyring
/// untouched whenever they fail.)
pub proof fn lemma_remove_missing_fails(ring: KeyringView, id: Seq<char>)
    requires
        !ring.contains(id),
    ensures
        ring.get(id) == Err::<Seq<char>, ErrorKind>(ErrorKind::NotFound),
        ring.set_active(id) == Err::<KeyringView, ErrorKind>(ErrorKind::NotFound),
        ring.remove(id) == Err::<KeyringView, ErrorKind>(ErrorKind::NotFound),
{
}

/// Every mutation keeps the active-key invariant, and the two that set the
/// active pointer establish it.
pub proof fn lemma_mutations_keep_invariant(
    ring: KeyringView,
    id: Seq<char>,
    key: Seq<char>,
    make_active: bool,
)
    ensures
        ring.set_active(id) matches Ok(after) ==> after.well_formed(),
        ring.well_formed() || make_active ==> ring.insert(id, key, make_active).well_formed(),
        ring.well_formed() ==> (ring.remove(id) matches Ok(after) ==> after.well_formed()),
        ring.well_formed() ==> ring.release_key(None) is Ok || ring.active is None,
{
    let stored = ring.insert(id, key, make_active);
    assert(stored.keys->0.dom().contains(id));
}

} // verus!
