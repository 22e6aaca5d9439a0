//! Save slots: which file a save, load or delete request touches, and how the slot table,
//! the most recent save and the current save change once the file work succeeded.
use std::collections::HashMap;
use vstd::prelude::*;
use vstd::string::*;
use vstd::utf8::encode_utf8;
use crate::crypt::{decrypt_bytes, decrypted, encrypt_bytes, SEAL_MAX_LEN};
use crate::setting::GameSettingChanged;

verus! {

broadcast use vstd::std_specs::hash::group_hash_axioms;

/// Request to save the game in slot `.0`; slot 0 asks for a new slot.
pub struct SaveGame(pub u32);

/// Request to delete the save in slot `.0`.
pub struct DeleteSave(pub u32);

/// Request to load the save in slot `.0`.
pub struct LoadGame(pub u32);

/// Request to load the most recent save.
pub struct LoadRecent;

/// The slot of the save in use; 0 when there is none.
pub struct CurrentSave(pub u32);

/// A file that a request reads, writes or removes: `name`, inside `dir` when there is one.
pub struct SavePath {
    pub dir: Option<String>,
    pub name: String,
}

impl SavePath {
    /// The path is `name` inside directory `dir`.
    pub open spec fn is_in_dir(&self, dir: Seq<char>, name: Seq<char>) -> bool {
        &&& self.name@ == name
        &&& match self.dir {
            Some(d) => d@ == dir,
            None => false,
        }
    }
}

/// The password that save files are sealed with unless a game sets its own.
pub const ENCR_KEY: &'static str = "0123456789abcdef";

/// The characters that names of new save files are made of.
pub const SAVE_NAME_CHARSET: &'static str = "ABCDEFGHIJKLMNOPQRSTUVWXYZabcdefghijklmnopqrstuvwxyz0123456789";

/// How many characters of `SAVE_NAME_CHARSET` a new save file name starts with.
pub const SAVE_NAME_LEN: usize = 12;

/// Why sealing or opening a save blob failed.
#[derive(PartialEq, Eq, Structural, Debug)]
pub enum SaveError {
    Encrypt,
    Decrypt,
}

/// The save slots: slot ids (valid ones start from 1) with their file names, the directory
/// the files live in and the slot saved last (0 for none).
pub struct SaveConfig {
    saves: HashMap<u32, String>,
    save_dir: String,
    last_saved: u32,
}

/// What opening a save blob sealed with password `key` gives.
pub open spec fn unseal_result(sealed: Seq<u8>, key: Seq<char>) -> Result<Seq<u8>, SaveError> {
    match decrypted(sealed, encode_utf8(key)) {
        Some(v) => Ok(v),
        None => Err(SaveError::Decrypt),
    }
}

/// `s` is a name for a new save file: `SAVE_NAME_LEN` characters of the charset, then ".dat".
pub open spec fn is_fresh_save_name(s: Seq<char>) -> bool {
    &&& s.len() == SAVE_NAME_LEN + 4
    &&& forall|i: int| 0 <= i < SAVE_NAME_LEN ==> SAVE_NAME_CHARSET@.contains(#[trigger] s[i])
    &&& s.subrange(SAVE_NAME_LEN as int, SAVE_NAME_LEN + 4) == ".dat"@
}

impl SaveConfig {
    /// The slot table.
    pub closed spec fn slots(&self) -> Map<u32, String> {
        self.saves@
    }

    /// The directory that save files live in.
    pub closed spec fn dir(&self) -> Seq<char> {
        self.save_dir@
    }

    /// The slot saved last, 0 for none.
    pub closed spec fn last(&self) -> u32 {
        self.last_saved
    }

    /// No slot 0, and the last saved slot is 0 or a slot of the table.
    pub open spec fn is_consistent(&self) -> bool {
        &&& !self.slots().contains_key(0)
        &&& (self.last() == 0 || self.slots().contains_key(self.last()))
    }

    /// `id` is one more than the largest slot id, or 1 when there is no slot.
    pub open spec fn is_next_id(&self, id: u32) -> bool {
        if self.slots().dom().is_empty() {
            id == 1
        } else {
            &&& id >= 1
            &&& self.slots().contains_key((id - 1) as u32)
            &&& forall|j: u32| #[trigger] self.slots().contains_key(j) ==> j < id
        }
    }

    /// A configuration made of a slot table, a save directory and the slot saved last.
    pub fn from_parts(saves: HashMap<u32, String>, save_dir: String, last_saved: u32) -> (r: Self)
        ensures
            r.slots() == saves@,
            r.dir() == save_dir@,
            r.last() == last_saved,
    {
        SaveConfig { saves, save_dir, last_saved }
    }

    /// The slot table.
    pub fn saves(&self) -> (r: &HashMap<u32, String>)
        ensures
            r@ == self.slots(),
    {
        &self.saves
    }

    /// The directory that save files live in.
    pub fn save_dir(&self) -> (r: &String)
        ensures
            r@ == self.dir(),
    {
        &self.save_dir
    }

    /// The slot saved last, 0 for none.
    pub fn last_saved(&self) -> (r: u32)
        ensures
            r == self.last(),
    {
        self.last_saved
    }

    /// The file name stored for slot `id`.
    pub fn slot(&self, id: u32) -> (r: Option<String>)
        ensures
            match r {
                Some(s) => self.slots().contains_key(id) && s@ == self.slots()[id]@,
                None => !self.slots().contains_key(id),
            },
    {
        match self.saves.get(&id) {
            Some(s) => Some(s.clone()),
            None => None,
        }
    }

    /// The id a new slot gets: one more than the largest slot id, 1 for an empty table.
    pub fn next_id(&self) -> (r: u32)
        requires
            !self.slots().contains_key(u32::MAX),
        ensures
            self.is_next_id(r),
    {
        match max_key(&self.saves) {
            Some(k) => k + 1,
            None => 1,
        }
    }

    /// Whether a new slot can be made: the largest id is below `u32::MAX`.
    pub fn has_free_id(&self) -> (r: bool)
        ensures
            r == !self.slots().contains_key(u32::MAX),
    {
        !self.saves.contains_key(&u32::MAX)
    }

    /// The file that loading slot `msg.0` reads, in the save directory; `None` for an
    /// unknown slot.
    pub fn load_path(&self, msg: &LoadGame) -> (r: Option<SavePath>)
        ensures
            match r {
                Some(p) => self.slots().contains_key(msg.0) && p.is_in_dir(self.dir(), self.slots()[msg.0]@),
                None => !self.slots().contains_key(msg.0),
            },
    {
        self.path_in_dir(msg.0)
    }

    /// The file that loading the most recent save reads; `None` when the last saved slot
    /// is not in the table.
    pub fn recent_path(&self) -> (r: Option<SavePath>)
        ensures
            match r {
                Some(p) => self.slots().contains_key(self.last()) && p.is_in_dir(self.dir(), self.slots()[self.last()]@),
                None => !self.slots().contains_key(self.last()),
            },
    {
        self.path_in_dir(self.last_saved)
    }

    /// The file that saving in slot `msg.0` writes: for slot 0 a fresh name in the save
    /// directory, else the file of the slot; `None` for an unknown slot.
    pub fn save_path(&self, msg: &SaveGame) -> (r: Option<SavePath>)
        ensures
            msg.0 == 0 ==> (r matches Some(p) && is_fresh_save_name(p.name@) && p.is_in_dir(self.dir(), p.name@)),
            msg.0 != 0 ==> match r {
                Some(p) => self.slots().contains_key(msg.0) && p.is_in_dir(self.dir(), self.slots()[msg.0]@),
                None => !self.slots().contains_key(msg.0),
            },
    {
        if msg.0 == 0 {
            Some(SavePath { dir: Some(self.save_dir.clone()), name: fresh_save_file_name() })
        } else {
            self.path_in_dir(msg.0)
        }
    }

    /// The file that deleting slot `msg.0` removes: the stored name as it is, not inside
    /// the save directory; `None` for an unknown slot.
    pub fn delete_path(&self, msg: &DeleteSave) -> (r: Option<SavePath>)
        ensures
            match r {
                Some(p) => self.slots().contains_key(msg.0) && p.name@ == self.slots()[msg.0]@
                    && p.dir is None,
                None => !self.slots().contains_key(msg.0),
            },
    {
        match self.slot(msg.0) {
            Some(name) => Some(SavePath { dir: None, name }),
            None => None,
        }
    }

    fn path_in_dir(&self, id: u32) -> (r: Option<SavePath>)
        ensures
            match r {
                Some(p) => self.slots().contains_key(id) && p.is_in_dir(self.dir(), self.slots()[id]@),
                None => !self.slots().contains_key(id),
            },
    {
        match self.slot(id) {
            Some(name) => Some(SavePath { dir: Some(self.save_dir.clone()), name }),
            None => None,
        }
    }

    /// Slot `msg.0` was loaded: it becomes the current save.
    pub fn finish_load(&self, current: &mut CurrentSave, msg: &LoadGame)
        ensures
            final(current).0 == msg.0,
    {
        current.0 = msg.0;
    }

    /// The most recent save was loaded: it becomes the current save.
    pub fn finish_load_recent(&self, current: &mut CurrentSave)
        ensures
            final(current).0 == self.last(),
    {
        current.0 = self.last_saved;
    }

    /// The file of `save_path(msg)`, named `file_name`, was written. For slot 0 it gets a
    /// new slot (see `is_next_id`), which becomes the last saved and the current save, and the
    /// settings are reported changed; for another slot that slot becomes the last saved and
    /// the current save.
    pub fn finish_save(&mut self, current: &mut CurrentSave, msg: &SaveGame, file_name: String) -> (r:
        Option<GameSettingChanged>)
        requires
            msg.0 == 0 ==> !old(self).slots().contains_key(u32::MAX),
        ensures
            final(self).dir() == old(self).dir(),
            final(self).last() == final(current).0,
            msg.0 == 0 ==> {
                &&& old(self).is_next_id(final(current).0)
                &&& final(self).slots() == old(self).slots().insert(final(current).0, file_name)
                &&& r is Some
            },
            msg.0 != 0 ==> {
                &&& final(current).0 == msg.0
                &&& final(self).slots() == old(self).slots()
                &&& r is None
            },
            old(self).is_consistent() && (msg.0 != 0 ==> old(self).slots().contains_key(msg.0))
                ==> final(self).is_consistent(),
    {
        if msg.0 == 0 {
            let id = self.next_id();
            self.saves.insert(id, file_name);
            self.last_saved = id;
            current.0 = id;
            Some(GameSettingChanged)
        } else {
            self.last_saved = msg.0;
            current.0 = msg.0;
            None
        }
    }

    /// The file of slot `msg.0` was removed: the slot leaves the table, there is no current
    /// save any more, and the last saved slot is cleared if it was this one.
    pub fn finish_delete(&mut self, current: &mut CurrentSave, msg: &DeleteSave)
        ensures
            final(self).slots() == old(self).slots().remove(msg.0),
            final(self).dir() == old(self).dir(),
            final(self).last() == (if old(self).last() == msg.0 { 0 } else { old(self).last() }),
            final(current).0 == 0,
            old(self).is_consistent() ==> final(self).is_consistent(),
    {
        self.saves.remove(&msg.0);
        current.0 = 0;
        if self.last_saved == msg.0 {
            self.last_saved = 0;
        }
    }
}

impl Default for SaveConfig {
    fn default() -> (r: Self)
        ensures
            r.slots().dom().is_empty(),
            r.dir().len() == 0,
            r.last() == 0,
    {
        SaveConfig { saves: HashMap::new(), save_dir: String::new(), last_saved: 0 }
    }
}

/// Largest key of a slot table, if there is any.
pub fn max_key(m: &HashMap<u32, String>) -> (r: Option<u32>)
    ensures
        r is None <==> m@.dom().is_empty(),
        r matches Some(k) ==> m@.contains_key(k) && forall|j: u32| #[trigger] m@.contains_key(j) ==> j <= k,
{
    let mut best: Option<u32> = None;
    for k in it: m.keys()
        invariant
            it.seq().unref().to_set() == m@.dom(),
            best is None <==> it.index() == 0,
            best matches Some(b) ==> m@.contains_key(b),
            best matches Some(b) ==> forall|i: int| 0 <= i < it.index() ==> *#[trigger] it.seq()[i] <= b,
    {
        let v: u32 = *k;
        best = match best {
            None => Some(v),
            Some(b) => if v > b { Some(v) } else { Some(b) },
        };
    }
    best
}

/// `fastrand::usize(..bound)`: a number drawn from the thread's generator, below `bound`
/// (it panics for an empty range, hence `bound > 0`).
#[verifier::external_body]
fn random_index(bound: usize) -> (r: usize)
    requires
        bound > 0,
    ensures
        r < bound,
{
    fastrand::usize(..bound)
}

/// `String::push`: appends one character.
#[verifier::external_body]
fn push_char(s: &mut String, c: char)
    ensures
        final(s)@ == old(s)@.push(c),
{
    s.push(c)
}

/// `SAVE_NAME_LEN` characters drawn at random from `SAVE_NAME_CHARSET`.
pub fn random_string() -> (s: String)
    ensures
        s@.len() == SAVE_NAME_LEN,
        forall|i: int| 0 <= i < SAVE_NAME_LEN ==> SAVE_NAME_CHARSET@.contains(#[trigger] s@[i]),
{
    proof {
        reveal_strlit("ABCDEFGHIJKLMNOPQRSTUVWXYZabcdefghijklmnopqrstuvwxyz0123456789");
    }
    let charset = SAVE_NAME_CHARSET;
    let n = charset.unicode_len();
    let mut s = String::new();
    let mut i: usize = 0;
    while i < SAVE_NAME_LEN
        invariant
            i <= SAVE_NAME_LEN,
            n == charset@.len(),
            n > 0,
            charset@ == SAVE_NAME_CHARSET@,
            s@.len() == i,
            forall|j: int| 0 <= j < i ==> SAVE_NAME_CHARSET@.contains(#[trigger] s@[j]),
        decreases SAVE_NAME_LEN - i,
    {
        let idx = random_index(n);
        let c = charset.get_char(idx);
        assert(charset@[idx as int] == c);
        push_char(&mut s, c);
        i = i + 1;
    }
    s
}

/// A name for a new save file: `random_string()` followed by ".dat".
pub fn fresh_save_file_name() -> (s: String)
    ensures
        is_fresh_save_name(s@),
{
    let base = random_string();
    proof {
        reveal_strlit(".dat");
    }
    let r = base.concat(".dat");
    assert(r@.subrange(SAVE_NAME_LEN as int, SAVE_NAME_LEN + 4) =~= ".dat"@);
    assert forall|i: int| 0 <= i < SAVE_NAME_LEN implies SAVE_NAME_CHARSET@.contains(#[trigger] r@[i]) by {
        assert(r@[i] == base@[i]);
    }
    r
}

/// Seals save data with password `key`; whatever comes out opens again to `data` with the
/// same password. Sealing succeeds for data of at most `SEAL_MAX_LEN` bytes under a password
/// of at most `u32::MAX` bytes.
pub fn seal(data: &[u8], key: &str) -> (r: Result<Vec<u8>, SaveError>)
    ensures
        data@.len() <= SEAL_MAX_LEN && key.spec_bytes().len() <= u32::MAX ==> r is Ok,
        match r {
            Ok(v) => unseal_result(v@, key@) == Ok::<Seq<u8>, SaveError>(data@),
            Err(e) => e == SaveError::Encrypt,
        },
{
    match encrypt_bytes(data, key.as_bytes()) {
        Ok(v) => Ok(v),
        Err(_) => Err(SaveError::Encrypt),
    }
}

/// Opens a blob sealed with password `key`.
pub fn unseal(data: &[u8], key: &str) -> (r: Result<Vec<u8>, SaveError>)
    ensures
        match r {
            Ok(v) => unseal_result(data@, key@) == Ok::<Seq<u8>, SaveError>(v@),
            Err(e) => unseal_result(data@, key@) == Err::<Seq<u8>, SaveError>(e),
        },
{
    match decrypt_bytes(data, key.as_bytes()) {
        Ok(v) => Ok(v),
        Err(_) => Err(SaveError::Decrypt),
    }
}

/// A new slot's id is free: it is at least 1 (slot 0 stands for "a new slot") and above every
/// id in use.
pub proof fn lemma_next_id_is_fresh(cfg: SaveConfig, id: u32)
    requires
        cfg.is_next_id(id),
    ensures
        id >= 1,
        !cfg.slots().contains_key(id),
        forall|j: u32| #[trigger] cfg.slots().contains_key(j) ==> j < id,
{
}

/// What a save recorded is what a later load of that slot reads: once slot `id` maps to
/// `name`, loading `id` reads `name` in the save directory.
pub proof fn lemma_saved_slot_is_loaded(before: SaveConfig, after: SaveConfig, id: u32, name: String)
    requires
        after.slots() == before.slots().insert(id, name),
    ensures
        after.slots().contains_key(id),
        after.slots()[id]@ == name@,
        forall|j: u32| j != id ==> (#[trigger] after.slots().contains_key(j) <==> before.slots().contains_key(j)),
{
}

/// A deleted slot is gone: loading or saving it again finds nothing, and the other slots stay.
pub proof fn lemma_deleted_slot_is_gone(before: SaveConfig, after: SaveConfig, id: u32)
    requires
        after.slots() == before.slots().remove(id),
    ensures
        !after.slots().contains_key(id),
        forall|j: u32| j != id ==> (#[trigger] after.slots().contains_key(j) <==> before.slots().contains_key(j)),
{
}

} // verus!
