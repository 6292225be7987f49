use vstd::prelude::*;
use crate::auth::{token_valid, verify_jwt};
use crate::errors::ApiError;

verus! {

/// Byte values the name handling cares about: `/`, `\`, `.` and `_`.
pub const SLASH: u8 = 47;

pub const BACKSLASH: u8 = 92;

pub const DOT: u8 = 46;

pub const UNDERSCORE: u8 = 95;

/// Bytes a hyphenated identifier is made of: lowercase hexadecimal digits
/// and the hyphen.
pub open spec fn is_uuid_byte(b: u8) -> bool {
    (48 <= b && b <= 57) || (97 <= b && b <= 102) || b == 45
}

/// A name that stays inside the flat storage root: non-empty, free of path
/// separators, and not a dot component.
pub open spec fn safe_name(s: Seq<u8>) -> bool {
    &&& s.len() > 0
    &&& (forall|i: int| 0 <= i < s.len() ==> #[trigger] s[i] != SLASH && s[i] != BACKSLASH)
    &&& s != seq![DOT]
    &&& s != seq![DOT, DOT]
}

/// A client-supplied name with every path separator dropped.
pub open spec fn strip_separators(s: Seq<u8>) -> Seq<u8>
    decreases s.len(),
{
    if s.len() == 0 {
        Seq::empty()
    } else if s.last() == SLASH || s.last() == BACKSLASH {
        strip_separators(s.drop_last())
    } else {
        strip_separators(s.drop_last()).push(s.last())
    }
}

/// What `strip_separators` leaves carries no separator.
pub proof fn lemma_strip_separators_clean(s: Seq<u8>)
    ensures
        forall|i: int|
            0 <= i < strip_separators(s).len() ==> #[trigger] strip_separators(s)[i] != SLASH
                && strip_separators(s)[i] != BACKSLASH,
    decreases s.len(),
{
    if s.len() > 0 {
        lemma_strip_separators_clean(s.drop_last());
        assert forall|i: int|
            0 <= i < strip_separators(s).len() implies #[trigger] strip_separators(s)[i] != SLASH
            && strip_separators(s)[i] != BACKSLASH by {
            if s.last() != SLASH && s.last() != BACKSLASH {
                if i < strip_separators(s.drop_last()).len() {
                    assert(strip_separators(s)[i] == strip_separators(s.drop_last())[i]);
                } else {
                    assert(strip_separators(s)[i] == s.last());
                }
            }
        }
    }
}

/// Relies on uuid::Uuid::new_v4 and its hyphenated display form: 36 bytes of
/// lowercase hexadecimal digits and hyphens.  The value is drawn from OS
/// randomness, so nothing more is promised of it.
#[verifier::external_body]
fn fresh_uuid() -> (r: Vec<u8>)
    ensures
        r@.len() == 36,
        forall|i: int| 0 <= i < r@.len() ==> is_uuid_byte(#[trigger] r@[i]),
{
    uuid::Uuid::new_v4().to_string().into_bytes()
}

/// Byte-for-byte equality of two byte strings.
fn bytes_eq(a: &[u8], b: &[u8]) -> (r: bool)
    ensures
        r == (a@ == b@),
{
    if a.len() != b.len() {
        return false;
    }
    let n = a.len();
    let mut i: usize = 0;
    while i < n
        invariant
            n == a@.len(),
            n == b@.len(),
            i <= n,
            forall|k: int| 0 <= k < i ==> a@[k] == b@[k],
        decreases n - i,
    {
        if a[i] != b[i] {
            return false;
        }
        i += 1;
    }
    proof {
        assert(a@ =~= b@);
    }
    true
}

/// A copy of a byte string.
fn clone_bytes(v: &[u8]) -> (r: Vec<u8>)
    ensures
        r@ == v@,
{
    let mut out: Vec<u8> = Vec::new();
    let n = v.len();
    let mut i: usize = 0;
    while i < n
        invariant
            n == v@.len(),
            i <= n,
            out@ == v@.take(i as int),
        decreases n - i,
    {
        out.push(v[i]);
        i += 1;
        proof {
            assert(v@.take(i as int) =~= v@.take(i as int - 1).push(v@[i - 1]));
        }
    }
    proof {
        assert(v@.take(n as int) =~= v@);
    }
    out
}

/// Drops every path separator from a client-supplied name.
fn strip_separator_bytes(name: &[u8]) -> (r: Vec<u8>)
    ensures
        r@ == strip_separators(name@),
{
    let mut out: Vec<u8> = Vec::new();
    let n = name.len();
    let mut i: usize = 0;
    while i < n
        invariant
            n == name@.len(),
            i <= n,
            out@ == strip_separators(name@.take(i as int)),
        decreases n - i,
    {
        let b = name[i];
        if b != SLASH && b != BACKSLASH {
            out.push(b);
        }
        i += 1;
        proof {
            assert(name@.take(i as int).drop_last() =~= name@.take(i as int - 1));
            assert(name@.take(i as int).last() == name@[i - 1]);
        }
    }
    proof {
        assert(name@.take(n as int) =~= name@);
    }
    out
}

/// Metadata row linking an uploaded file to its storage path and uploader.
/// The data model declares it, but no endpoint persists it yet: upload's
/// only observable side effect is the stored blob itself.
pub struct FileRecord {
    pub id: i32,
    pub filename: String,
    pub filepath: String,
    pub uploader_id: i32,
}

/// The insertable form of `FileRecord`, without its identifier.
pub struct NewFile {
    pub filename: String,
    pub filepath: String,
    pub uploader_id: i32,
}

/// One stored blob: a byte payload under its storage name.
pub struct StoredFile {
    pub name: Vec<u8>,
    pub data: Vec<u8>,
}

/// In-memory model of the flat storage namespace: blobs under unique names,
/// every name safe to resolve against the storage root.
pub struct FileStore {
    pub files: Vec<StoredFile>,
}

impl FileStore {
    /// Names are unique and never escape the storage root.
    pub open spec fn wf(self) -> bool {
        &&& forall|i: int, j: int|
            0 <= i < j < self.files@.len() ==> (#[trigger] self.files@[i].name@) != (
            #[trigger] self.files@[j].name@)
        &&& forall|i: int| 0 <= i < self.files@.len() ==> safe_name(#[trigger] self.files@[i].name@)
    }

    pub open spec fn has_file(self, name: Seq<u8>) -> bool {
        exists|i: int| 0 <= i < self.files@.len() && (#[trigger] self.files@[i].name@) == name
    }

    /// The index of the blob stored under `name`; meaningful when `has_file`.
    pub open spec fn file_index(self, name: Seq<u8>) -> int {
        choose|i: int| 0 <= i < self.files@.len() && (#[trigger] self.files@[i].name@) == name
    }

    /// The bytes stored under `name`.
    pub open spec fn data_of(self, name: Seq<u8>) -> Seq<u8> {
        self.files@[self.file_index(name)].data@
    }

    /// An index whose blob is stored under `name` is the index the spec
    /// functions speak of.
    pub proof fn lemma_index_of(self, name: Seq<u8>, i: int)
        requires
            self.wf(),
            0 <= i < self.files@.len(),
            self.files@[i].name@ == name,
        ensures
            self.has_file(name),
            self.file_index(name) == i,
    {
        assert(self.has_file(name));
    }

    pub fn new() -> (r: FileStore)
        ensures
            r.wf(),
            r.files@.len() == 0,
            forall|n: Seq<u8>| !r.has_file(n),
    {
        FileStore { files: Vec::new() }
    }

    /// Looks a blob up by its storage name.
    pub fn find(&self, name: &[u8]) -> (r: Option<usize>)
        requires
            self.wf(),
        ensures
            (r is Some) == self.has_file(name@),
            r matches Some(i) ==> i < self.files@.len() && self.files@[i as int].name@ == name@
                && self.file_index(name@) == i,
    {
        let n = self.files.len();
        let mut i: usize = 0;
        while i < n
            invariant
                self.wf(),
                n == self.files@.len(),
                i <= n,
                forall|k: int| 0 <= k < i ==> (#[trigger] self.files@[k].name@) != name@,
            decreases n - i,
        {
            if bytes_eq(self.files[i].name.as_slice(), name) {
                proof {
                    self.lemma_index_of(name@, i as int);
                }
                return Some(i);
            }
            i += 1;
        }
        None
    }
}

/// Accepts one uploaded part.  The display name is the declared one with
/// every path separator dropped, or a fresh identifier when none was
/// declared; the storage name prefixes a fresh identifier and an underscore,
/// so it never collides with an existing blob and is never wholly chosen by
/// the client.  The bytes are stored under that name, which is returned.
pub fn upload_file(store: &mut FileStore, declared: Option<&[u8]>, data: Vec<u8>) -> (r: Result<
    Vec<u8>,
    ApiError,
>)
    requires
        old(store).wf(),
    ensures
        final(store).wf(),
        r matches Err(e) ==> e == ApiError::Internal && *final(store) == *old(store),
        r matches Ok(n) ==> ({
            &&& safe_name(n@)
            &&& n@.len() >= 37
            &&& (forall|i: int| 0 <= i < 36 ==> is_uuid_byte(#[trigger] n@[i]))
            &&& n@[36] == UNDERSCORE
            &&& (declared matches Some(d) ==> n@.skip(37) == strip_separators(d@))
            &&& (declared is None ==> n@.len() == 73)
            &&& !old(store).has_file(n@)
            &&& final(store).files@.len() == old(store).files@.len() + 1
            &&& final(store).has_file(n@)
            &&& final(store).data_of(n@) == data@
            &&& (forall|m: Seq<u8>|
                m != n@ ==> final(store).has_file(m) == old(store).has_file(m))
            &&& (forall|m: Seq<u8>|
                m != n@ && old(store).has_file(m) ==> final(store).data_of(m) == old(
                    store,
                ).data_of(m))
        }),
{
    let mut name = fresh_uuid();
    name.push(UNDERSCORE);
    match declared {
        Some(d) => {
            let mut tail = strip_separator_bytes(d);
            proof {
                lemma_strip_separators_clean(d@);
            }
            name.append(&mut tail);
        },
        None => {
            let mut tail = fresh_uuid();
            name.append(&mut tail);
        },
    }
    proof {
        assert(safe_name(name@)) by {
            assert(name@.len() >= 37);
            assert(forall|i: int| 0 <= i < name@.len() ==> #[trigger] name@[i] != SLASH
                && name@[i] != BACKSLASH);
            assert(name@ != seq![DOT] && name@ != seq![DOT, DOT]) by {
                assert(name@.len() >= 37);
                assert(seq![DOT].len() == 1 && seq![DOT, DOT].len() == 2);
            }
        }
    }
    if store.find(name.as_slice()).is_some() {
        return Err(ApiError::Internal);
    }
    let stored_name = clone_bytes(name.as_slice());
    let ghost n = name@;
    let ghost old_files = store.files@;
    store.files.push(StoredFile { name: stored_name, data });
    proof {
        let len = old_files.len() as int;
        assert forall|i: int, j: int| 0 <= i < j < store.files@.len() implies (
        #[trigger] store.files@[i].name@) != (#[trigger] store.files@[j].name@) by {
            if j < len {
                assert(old(store).files@[i].name@ != old(store).files@[j].name@);
            } else {
                assert(store.files@[j].name@ == n);
                assert(!old(store).has_file(n));
            }
        }
        store.lemma_index_of(n, len);
        assert forall|m: Seq<u8>| m != n implies final(store).has_file(m) == old(
            store,
        ).has_file(m) by {
            if old(store).has_file(m) {
                let k = old(store).file_index(m);
                assert(store.files@[k].name@ == m);
            }
            if store.has_file(m) {
                let k = store.file_index(m);
                assert(k < len);
                assert(old(store).files@[k].name@ == m);
            }
        }
        assert forall|m: Seq<u8>| m != n && old(store).has_file(m) implies final(store).data_of(m)
            == old(store).data_of(m) by {
            let k = old(store).file_index(m);
            assert(old(store).files@[k].name@ == m);
            store.lemma_index_of(m, k);
        }
    }
    Ok(name)
}

/// Streams a stored blob back to an authorized requester.  A missing or
/// invalid token is `Unauthenticated`; a requested name that would resolve
/// outside the storage root, or one no blob is stored under, is `NotFound`
/// without distinction, so internal paths never leak.
pub fn download_file<'a>(
    store: &'a FileStore,
    token: &str,
    filename: &[u8],
    now: usize,
    secret: &[u8],
) -> (r: Result<&'a Vec<u8>, ApiError>)
    requires
        store.wf(),
    ensures
        !token_valid(token@, now, secret@) ==> r == Err::<&'a Vec<u8>, ApiError>(
            ApiError::Unauthenticated,
        ),
        token_valid(token@, now, secret@) && !safe_name(filename@) ==> r == Err::<
            &'a Vec<u8>,
            ApiError,
        >(ApiError::NotFound),
        token_valid(token@, now, secret@) && safe_name(filename@) && !store.has_file(filename@)
            ==> r == Err::<&'a Vec<u8>, ApiError>(ApiError::NotFound),
        r matches Ok(d) ==> token_valid(token@, now, secret@) && safe_name(filename@)
            && store.has_file(filename@) && d@ == store.data_of(filename@),
        (r is Ok) == (token_valid(token@, now, secret@) && safe_name(filename@) && store.has_file(
            filename@,
        )),
{
    if verify_jwt(token, now, secret).is_none() {
        return Err(ApiError::Unauthenticated);
    }
    if !is_safe_filename(filename) {
        return Err(ApiError::NotFound);
    }
    match store.find(filename) {
        Some(i) => Ok(&store.files[i].data),
        None => Err(ApiError::NotFound),
    }
}

/// Law: every name the store holds can be resolved against the storage
/// root; no stored name contains a path separator or is a dot component,
/// whatever name the client declared at upload.
pub proof fn lemma_stored_names_stay_inside_root(store: FileStore, i: int)
    requires
        store.wf(),
        0 <= i < store.files@.len(),
    ensures
        safe_name(store.files@[i].name@),
{
}

/// Whether a requested name may be resolved against the storage root.
pub fn is_safe_filename(name: &[u8]) -> (r: bool)
    ensures
        r == safe_name(name@),
{
    let n = name.len();
    if n == 0 {
        return false;
    }
    if n == 1 && name[0] == DOT {
        proof {
            assert(name@ =~= seq![DOT]);
        }
        return false;
    }
    if n == 2 && name[0] == DOT && name[1] == DOT {
        proof {
            assert(name@ =~= seq![DOT, DOT]);
        }
        return false;
    }
    let mut i: usize = 0;
    while i < n
        invariant
            n == name@.len(),
            i <= n,
            forall|k: int| 0 <= k < i ==> #[trigger] name@[k] != SLASH && name@[k] != BACKSLASH,
            name@ != seq![DOT],
            name@ != seq![DOT, DOT],
            n > 0,
        decreases n - i,
    {
        if name[i] == SLASH || name[i] == BACKSLASH {
            return false;
        }
        i += 1;
    }
    true
}

} // verus!
