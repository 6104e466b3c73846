//! The allow list: the set of identity keys permitted to request access,
//! each independently enabled or disabled, ordered newest first.
//!
//! The external admin interface owns and mutates the list; the
//! authorization loop only reads it, and any key the list does not carry
//! as enabled is treated as disabled (fail closed).

use vstd::prelude::*;
use vstd::string::StrSliceExecFns;
use crate::auth::unix_now;

verus! {

/// One allow-list entry: a public identity key with its display labels,
/// its enabled flag, and its creation time in Unix seconds.
pub struct PublicKey {
    pub id: u128,
    pub npub: String,
    pub nip05: Option<String>,
    pub profile_name: Option<String>,
    pub status: bool,
    pub created_at: i64,
}

/// Inserting the key would duplicate an existing row.
#[derive(PartialEq, Eq, Debug)]
pub struct StoreConflict;

/// A connectivity or storage failure of the backing store, surfaced
/// distinctly from "key absent" so the caller can stay fail-closed.
#[derive(Clone, Copy, PartialEq, Eq, Debug)]
pub enum StoreError {
    Unavailable,
}

/// A submitted "add key" form: the key itself and its optional display
/// labels.
pub struct KeyRequest {
    pub npub: String,
    pub nip05: Option<String>,
    pub profile_name: Option<String>,
}

/// Why a key-management request was refused.
#[derive(Clone, Copy, PartialEq, Eq, Debug)]
pub enum KeyRequestError {
    /// The submitted key is not in the canonical `npub1` encoding.
    InvalidKeyFormat,
    /// The key is already on the list.
    DuplicateKey,
    /// The row identifier is not a well-formed UUID.
    InvalidKeyId,
}

/// The canonical string encoding of an identity key: the fixed `npub1`
/// prefix followed by 58 data characters.
pub open spec fn valid_npub(s: Seq<char>) -> bool {
    s.len() == 63 && s.subrange(0, 5) == "npub1"@
}

/// The 128-bit value a row-identifier string denotes, if it is a
/// well-formed UUID: a function of the string alone.
pub uninterp spec fn parsed_key_id(s: Seq<char>) -> Option<u128>;

/// Relies on uuid::Uuid::parse_str: whether a string is a well-formed
/// UUID, and which 128-bit value it denotes, depend on the string alone.
#[verifier::external_body]
fn parse_key_id(s: &str) -> (r: Option<u128>)
    ensures
        r == parsed_key_id(s@),
{
    uuid::Uuid::parse_str(s).ok().map(|u| u.as_u128())
}

/// Relies on uuid::Uuid::new_v4: a freshly drawn random identifier, so
/// nothing is promised of the value.
#[verifier::external_body]
fn fresh_key_id() -> u128 {
    uuid::Uuid::new_v4().as_u128()
}

/// An entry with its enabled flag flipped and every other field kept.
pub open spec fn toggled(e: PublicKey) -> PublicKey {
    PublicKey { status: !e.status, ..e }
}

/// The allow list held as rows ordered by creation time, newest first,
/// with no key and no row identifier occurring twice.
pub struct AllowList {
    entries: Vec<PublicKey>,
}

impl View for AllowList {
    type V = Seq<PublicKey>;

    closed spec fn view(&self) -> Seq<PublicKey> {
        self.entries@
    }
}

impl AllowList {
    /// Keys unique, row identifiers unique, rows ordered by creation time
    /// descending.
    pub open spec fn wf(self) -> bool {
        &&& forall|i: int, j: int|
            0 <= i < j < self@.len() ==> self@[i].npub@ != self@[j].npub@
        &&& forall|i: int, j: int| 0 <= i < j < self@.len() ==> self@[i].id != self@[j].id
        &&& forall|i: int, j: int|
            0 <= i < j < self@.len() ==> self@[i].created_at >= self@[j].created_at
    }

    /// The list carries a row for this key.
    pub open spec fn spec_contains(self, npub: Seq<char>) -> bool {
        exists|i: int| 0 <= i < self@.len() && self@[i].npub@ == npub
    }

    /// The list carries a row with this identifier.
    pub open spec fn spec_has_id(self, id: u128) -> bool {
        exists|i: int| 0 <= i < self@.len() && self@[i].id == id
    }

    /// The key is present and enabled. Every other key — absent or
    /// explicitly disabled — counts as not enabled.
    pub open spec fn spec_enabled(self, npub: Seq<char>) -> bool {
        exists|i: int| 0 <= i < self@.len() && self@[i].npub@ == npub && self@[i].status
    }

    pub fn new() -> (l: AllowList)
        ensures
            l.wf(),
            l@ =~= Seq::<PublicKey>::empty(),
    {
        AllowList { entries: Vec::new() }
    }

    /// All rows, newest first.
    pub fn get_all_keys(&self) -> (r: &Vec<PublicKey>)
        ensures
            r@ == self@,
    {
        &self.entries
    }

    /// Whether the key is on the list and enabled: a row that is absent
    /// and a row that is disabled both answer `false`.
    pub fn is_key_enabled(&self, npub: &str) -> (r: bool)
        requires
            self.wf(),
        ensures
            r == self.spec_enabled(npub@),
    {
        let key = npub.to_owned();
        let n = self.entries.len();
        let mut i: usize = 0;
        while i < n
            invariant
                n == self@.len(),
                0 <= i <= n,
                self.wf(),
                key@ == npub@,
                forall|k: int| 0 <= k < i ==> self@[k].npub@ != npub@,
            decreases n - i,
        {
            if self.entries[i].npub == key {
                return self.entries[i].status;
            }
            i += 1;
        }
        false
    }

    /// The raw row for a key, as the backing store would answer it: the
    /// enabled flag when the key has a row, `None` when it has none. The
    /// in-memory list itself never fails, so the store-error arm of the
    /// result stays empty here.
    pub fn lookup_row(&self, npub: &str) -> (row: Result<Option<bool>, StoreError>)
        requires
            self.wf(),
        ensures
            row is Ok,
            row matches Ok(opt) ==> ((opt == Some(true)) <==> self.spec_enabled(npub@)),
            row matches Ok(opt) ==> ((opt is Some) <==> self.spec_contains(npub@)),
    {
        let key = npub.to_owned();
        let n = self.entries.len();
        let mut i: usize = 0;
        while i < n
            invariant
                n == self@.len(),
                0 <= i <= n,
                self.wf(),
                key@ == npub@,
                forall|k: int| 0 <= k < i ==> self@[k].npub@ != npub@,
            decreases n - i,
        {
            if self.entries[i].npub == key {
                return Ok(Some(self.entries[i].status));
            }
            i += 1;
        }
        Ok(None)
    }

    /// Add a complete row. Refused exactly when the key or the row
    /// identifier is already present; otherwise the row takes its place
    /// in creation-time order, after existing rows of the same time.
    pub fn insert_entry(&mut self, entry: PublicKey) -> (r: Result<(), StoreConflict>)
        requires
            old(self).wf(),
        ensures
            final(self).wf(),
            r is Err <==> old(self).spec_contains(entry.npub@) || old(self).spec_has_id(
                entry.id,
            ),
            r is Err ==> final(self)@ == old(self)@,
            r is Ok ==> exists|k: int|
                0 <= k <= old(self)@.len() && final(self)@ == old(self)@.insert(k, entry),
    {
        let n = self.entries.len();
        let mut i: usize = 0;
        while i < n
            invariant
                self@ == old(self)@,
                old(self).wf(),
                n == self@.len(),
                0 <= i <= n,
                forall|k: int| 0 <= k < i ==> self@[k].npub@ != entry.npub@,
                forall|k: int| 0 <= k < i ==> self@[k].id != entry.id,
            decreases n - i,
        {
            if self.entries[i].npub == entry.npub || self.entries[i].id == entry.id {
                return Err(StoreConflict);
            }
            i += 1;
        }
        let mut pos: usize = 0;
        while pos < n && self.entries[pos].created_at >= entry.created_at
            invariant
                self@ == old(self)@,
                old(self).wf(),
                n == self@.len(),
                0 <= pos <= n,
                forall|k: int| 0 <= k < pos ==> self@[k].created_at >= entry.created_at,
            decreases n - pos,
        {
            pos += 1;
        }
        let ghost pre = self@;
        self.entries.insert(pos, entry);
        proof {
            assert(self@ == pre.insert(pos as int, entry));
            assert forall|a: int, b: int| 0 <= a < b < self@.len() implies self@[a].created_at
                >= self@[b].created_at by {
                assert(pos < pre.len() ==> pre[pos as int].created_at < entry.created_at);
                if b < pos {
                    assert(self@[a] == pre[a] && self@[b] == pre[b]);
                } else if b == pos {
                    assert(self@[b] == entry && self@[a] == pre[a]);
                } else if a == pos {
                    assert(self@[a] == entry && self@[b] == pre[b - 1]);
                    assert(pre[pos as int].created_at >= pre[b - 1].created_at);
                } else if a < pos {
                    assert(self@[a] == pre[a] && self@[b] == pre[b - 1]);
                } else {
                    assert(self@[a] == pre[a - 1] && self@[b] == pre[b - 1]);
                }
            }
        }
        Ok(())
    }

    /// Add a key with fresh bookkeeping: enabled by default, stamped with
    /// the current time, under a freshly drawn row identifier. Refused when
    /// the key is already present (or the fresh identifier collides), and
    /// the list is then unchanged.
    pub fn insert_key(
        &mut self,
        npub: String,
        nip05: Option<String>,
        profile_name: Option<String>,
    ) -> (r: Result<(), StoreConflict>)
        requires
            old(self).wf(),
        ensures
            final(self).wf(),
            r is Err ==> final(self)@ == old(self)@,
            old(self).spec_contains(npub@) ==> r is Err,
            r is Ok ==> !old(self).spec_contains(npub@),
            r is Ok ==> exists|k: int, e: PublicKey|
                {
                    &&& 0 <= k <= old(self)@.len()
                    &&& e.npub == npub
                    &&& e.nip05 == nip05
                    &&& e.profile_name == profile_name
                    &&& e.status
                    &&& final(self)@ == old(self)@.insert(k, e)
                },
    {
        let id = fresh_key_id();
        let created_at = unix_now();
        let entry = PublicKey { id, npub, nip05, profile_name, status: true, created_at };
        self.insert_entry(entry)
    }

    /// Flip the enabled flag of the row with this identifier, if any;
    /// every other row, and a list without the identifier, is untouched.
    pub fn toggle_key_status(&mut self, key_id: u128)
        requires
            old(self).wf(),
        ensures
            final(self).wf(),
            final(self)@.len() == old(self)@.len(),
            forall|k: int|
                0 <= k < old(self)@.len() ==> final(self)@[k] == (if old(self)@[k].id == key_id {
                    toggled(old(self)@[k])
                } else {
                    old(self)@[k]
                }),
    {
        let n = self.entries.len();
        let mut i: usize = 0;
        while i < n
            invariant
                n == self@.len(),
                0 <= i <= n,
                old(self).wf(),
                self@.len() == old(self)@.len(),
                forall|k: int|
                    0 <= k < self@.len() ==> self@[k] == (if old(self)@[k].id == key_id && k < i {
                        toggled(old(self)@[k])
                    } else {
                        old(self)@[k]
                    }),
            decreases n - i,
        {
            if self.entries[i].id == key_id {
                let flipped = !self.entries[i].status;
                let slot = &mut self.entries[i];
                slot.status = flipped;
            }
            i += 1;
        }
    }

    /// Remove the row with this identifier, if any; every other row, and
    /// a list without the identifier, is untouched.
    pub fn delete_key_by_id(&mut self, key_id: u128)
        requires
            old(self).wf(),
        ensures
            final(self).wf(),
            !old(self).spec_has_id(key_id) ==> final(self)@ == old(self)@,
            forall|j: int|
                0 <= j < old(self)@.len() && old(self)@[j].id == key_id ==> final(self)@
                    == old(self)@.remove(j),
    {
        let n = self.entries.len();
        let mut i: usize = 0;
        while i < n
            invariant
                n == self@.len(),
                0 <= i <= n,
                self.wf(),
                self@ == old(self)@,
                forall|k: int| 0 <= k < i ==> self@[k].id != key_id,
            decreases n - i,
        {
            if self.entries[i].id == key_id {
                self.entries.remove(i);
                return ;
            }
            i += 1;
        }
    }
}

/// The adapter's fail-closed reading of a raw store row: an absent row and
/// a disabled row both collapse to "not enabled", while a genuine store
/// failure is surfaced distinctly, never as an enabled key.
pub fn collapse_lookup(row: Result<Option<bool>, StoreError>) -> (r: Result<bool, StoreError>)
    ensures
        row matches Ok(Some(b)) ==> r == Result::<bool, StoreError>::Ok(b),
        row matches Ok(None) ==> r == Result::<bool, StoreError>::Ok(false),
        row matches Err(e) ==> r == Result::<bool, StoreError>::Err(e),
{
    match row {
        Ok(Some(b)) => Ok(b),
        Ok(None) => Ok(false),
        Err(e) => Err(e),
    }
}

/// Whether a submitted key is in the canonical `npub1` string encoding:
/// exactly 63 characters beginning with `npub1`.
pub fn is_valid_npub(npub: &str) -> (r: bool)
    ensures
        r == valid_npub(npub@),
{
    proof {
        reveal_strlit("npub1");
    }
    let len = npub.unicode_len();
    if len != 63 {
        return false;
    }
    let ok = npub.get_char(0) == 'n' && npub.get_char(1) == 'p' && npub.get_char(2) == 'u'
        && npub.get_char(3) == 'b' && npub.get_char(4) == '1';
    proof {
        if ok {
            assert(npub@.subrange(0, 5) =~= "npub1"@);
        } else {
            assert(npub@.subrange(0, 5) != "npub1"@) by {
                if npub@.subrange(0, 5) == "npub1"@ {
                    assert(npub@[0] == npub@.subrange(0, 5)[0]);
                    assert(npub@[1] == npub@.subrange(0, 5)[1]);
                    assert(npub@[2] == npub@.subrange(0, 5)[2]);
                    assert(npub@[3] == npub@.subrange(0, 5)[3]);
                    assert(npub@[4] == npub@.subrange(0, 5)[4]);
                }
            }
        }
    }
    ok
}

/// The compute behind the "add key" request: refuse a key that is not in
/// canonical encoding, then insert it enabled-by-default.
pub fn add_key(list: &mut AllowList, request: KeyRequest) -> (r: Result<(), KeyRequestError>)
    requires
        old(list).wf(),
    ensures
        final(list).wf(),
        r is Err ==> final(list)@ == old(list)@,
        !valid_npub(request.npub@) ==> (r matches Err(e) && e is InvalidKeyFormat),
        valid_npub(request.npub@) && old(list).spec_contains(request.npub@) ==> (r matches Err(e)
            && e is DuplicateKey),
        r is Ok ==> valid_npub(request.npub@) && !old(list).spec_contains(request.npub@),
        r is Ok ==> exists|k: int, e: PublicKey|
            {
                &&& 0 <= k <= old(list)@.len()
                &&& e.npub == request.npub
                &&& e.nip05 == request.nip05
                &&& e.profile_name == request.profile_name
                &&& e.status
                &&& final(list)@ == old(list)@.insert(k, e)
            },
{
    if !is_valid_npub(request.npub.as_str()) {
        return Err(KeyRequestError::InvalidKeyFormat);
    }
    match list.insert_key(request.npub, request.nip05, request.profile_name) {
        Ok(()) => Ok(()),
        Err(StoreConflict) => Err(KeyRequestError::DuplicateKey),
    }
}

/// The compute behind the "toggle key" request: refuse a row identifier
/// that is not a well-formed UUID, else flip that row's enabled flag.
pub fn toggle_key(list: &mut AllowList, key_id: &str) -> (r: Result<(), KeyRequestError>)
    requires
        old(list).wf(),
    ensures
        final(list).wf(),
        parsed_key_id(key_id@) is None ==> (r matches Err(e) && e is InvalidKeyId && final(list)@
            == old(list)@),
        parsed_key_id(key_id@) matches Some(id) ==> r is Ok && final(list)@.len()
            == old(list)@.len() && forall|k: int|
            0 <= k < old(list)@.len() ==> final(list)@[k] == (if old(list)@[k].id == id {
                toggled(old(list)@[k])
            } else {
                old(list)@[k]
            }),
{
    match parse_key_id(key_id) {
        None => Err(KeyRequestError::InvalidKeyId),
        Some(id) => {
            list.toggle_key_status(id);
            Ok(())
        },
    }
}

/// The compute behind the "delete key" request: refuse a row identifier
/// that is not a well-formed UUID, else remove that row.
pub fn delete_key(list: &mut AllowList, key_id: &str) -> (r: Result<(), KeyRequestError>)
    requires
        old(list).wf(),
    ensures
        final(list).wf(),
        parsed_key_id(key_id@) is None ==> (r matches Err(e) && e is InvalidKeyId && final(list)@
            == old(list)@),
        parsed_key_id(key_id@) matches Some(id) ==> r is Ok && (!old(list).spec_has_id(id)
            ==> final(list)@ == old(list)@) && forall|j: int|
            0 <= j < old(list)@.len() && old(list)@[j].id == id ==> final(list)@ == old(
                list,
            )@.remove(j),
{
    match parse_key_id(key_id) {
        None => Err(KeyRequestError::InvalidKeyId),
        Some(id) => {
            list.delete_key_by_id(id);
            Ok(())
        },
    }
}

impl KeyRequestError {
    /// The operator-facing message of the refusal, as the key-management
    /// pages show it.
    pub fn message(&self) -> (r: &'static str)
        ensures
            self is InvalidKeyFormat ==> r@ == "Invalid public key format. Must be a valid npub1 key."@,
            self is DuplicateKey ==> r@ == "Failed to add key. It may already exist."@,
            self is InvalidKeyId ==> r@ == "Invalid key ID"@,
    {
        match self {
            KeyRequestError::InvalidKeyFormat => "Invalid public key format. Must be a valid npub1 key.",
            KeyRequestError::DuplicateKey => "Failed to add key. It may already exist.",
            KeyRequestError::InvalidKeyId => "Invalid key ID",
        }
    }
}

} // verus!
