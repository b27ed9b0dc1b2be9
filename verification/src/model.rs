//! The values that the store records and hands out.

use vstd::prelude::*;
use vstd::std_specs::convert::TryFromSpecImpl;

verus! {

/// Number of bytes of a file identifier.
pub const FILE_ID_LEN: usize = 6;

/// Counter of the recorded states of one file. The first state has version 0.
pub type Version = u64;

/// Identifier of a tracked file: six bytes, drawn at random when the file is
/// first seen and kept for as long as the file is tracked.
#[derive(Clone, Copy, Debug, PartialEq, Eq, Hash)]
pub struct FileId {
    /// The six bytes.
    pub bytes: [u8; 6],
}

/// A byte string of the wrong length was offered as a file identifier.
#[derive(Clone, Copy, Debug, PartialEq, Eq)]
pub struct FileIdLengthError {
    /// Length of the rejected byte string.
    pub len: usize,
}

impl View for FileId {
    type V = Seq<u8>;

    open spec fn view(&self) -> Seq<u8> {
        self.bytes@
    }
}

impl FileId {
    /// The identifier that holds the first six bytes of `bytes`.
    pub open spec fn of_seq(bytes: Seq<u8>) -> FileId {
        FileId { bytes: [bytes[0], bytes[1], bytes[2], bytes[3], bytes[4], bytes[5]] }
    }

    /// `of_seq` gives back the bytes that it was made from.
    pub proof fn lemma_of_seq(bytes: Seq<u8>)
        requires
            bytes.len() == FILE_ID_LEN,
        ensures
            Self::of_seq(bytes)@ == bytes,
    {
        assert(Self::of_seq(bytes)@ =~= bytes);
    }

    /// The identifier made of the six given bytes.
    pub fn new(bytes: [u8; 6]) -> (id: FileId)
        ensures
            id@ == bytes@,
    {
        FileId { bytes }
    }

    /// The identifier's bytes.
    pub fn as_bytes(&self) -> (bytes: &[u8; 6])
        ensures
            bytes@ == self@,
    {
        &self.bytes
    }

    /// The identifier's bytes, copied out.
    pub fn to_vec(&self) -> (bytes: Vec<u8>)
        ensures
            bytes@ == self@,
    {
        let mut out: Vec<u8> = Vec::with_capacity(FILE_ID_LEN);
        let mut i: usize = 0;
        while i < FILE_ID_LEN
            invariant
                i <= FILE_ID_LEN,
                out@ == self.bytes@.subrange(0, i as int),
            decreases FILE_ID_LEN - i,
        {
            out.push(self.bytes[i]);
            i += 1;
        }
        out
    }

    /// Reads an identifier from a byte string, which must hold six bytes.
    pub fn from_slice(bytes: &[u8]) -> (r: Result<FileId, FileIdLengthError>)
        ensures
            bytes@.len() == FILE_ID_LEN ==> r == Ok::<FileId, FileIdLengthError>(
                Self::of_seq(bytes@),
            ) && r->Ok_0@ == bytes@,
            bytes@.len() != FILE_ID_LEN ==> (r matches Err(e) && e.len == bytes@.len()),
    {
        if bytes.len() != FILE_ID_LEN {
            return Err(FileIdLengthError { len: bytes.len() });
        }
        let id = FileId {
            bytes: [bytes[0], bytes[1], bytes[2], bytes[3], bytes[4], bytes[5]],
        };
        proof {
            Self::lemma_of_seq(bytes@);
            assert(id.bytes@ =~= Self::of_seq(bytes@).bytes@);
            assert(id.bytes == Self::of_seq(bytes@).bytes);
        }
        Ok(id)
    }
}

impl Default for FileId {
    /// The identifier of six zero bytes.
    fn default() -> (id: FileId)
        ensures
            id@ == Seq::new(6, |i: int| 0u8),
    {
        let id = FileId { bytes: [0u8, 0u8, 0u8, 0u8, 0u8, 0u8] };
        assert(id@ =~= Seq::new(6, |i: int| 0u8));
        id
    }
}

impl<'a> TryFrom<&'a [u8]> for FileId {
    type Error = FileIdLengthError;

    fn try_from(bytes: &'a [u8]) -> (r: Result<FileId, FileIdLengthError>) {
        FileId::from_slice(bytes)
    }
}

impl<'a> TryFromSpecImpl<&'a [u8]> for FileId {
    open spec fn obeys_try_from_spec() -> bool {
        true
    }

    open spec fn try_from_spec(bytes: &'a [u8]) -> Result<FileId, FileIdLengthError> {
        if bytes@.len() == FILE_ID_LEN {
            Ok(FileId::of_seq(bytes@))
        } else {
            Err(FileIdLengthError { len: bytes@.len() as usize })
        }
    }
}

/// The latest recorded state of a file: its identifier, the version of that
/// state and the length the file had then.
#[derive(Clone, Copy, Debug, PartialEq, Eq)]
pub struct Partial {
    pub file_id: FileId,
    pub version: Version,
    pub len: u64,
}

/// Whether a file differs from its latest recorded state.
#[derive(Clone, Copy, Debug, PartialEq, Eq)]
pub enum Change {
    /// The file has the length that was recorded last.
    Unchanged(Partial),
    /// The file has another length than the one recorded last, or, with
    /// `None`, nothing was recorded for it yet.
    Changed(Option<Partial>),
}

/// The verdict on a file of length `len` whose latest recorded state is
/// `latest`.
pub open spec fn change_of(latest: Option<Partial>, len: u64) -> Change {
    match latest {
        None => Change::Changed(None),
        Some(partial) => if partial.len == len {
            Change::Unchanged(partial)
        } else {
            Change::Changed(Some(partial))
        },
    }
}

/// The version that the next recorded state of a file gets: 0 for the first
/// one, and one more than the latest after that.
pub open spec fn version_after(latest: Option<Partial>) -> int {
    match latest {
        None => 0,
        Some(partial) => partial.version + 1,
    }
}

/// Compares a file's current length with its latest recorded state.
pub fn classify_change(latest: Option<Partial>, len: u64) -> (change: Change)
    ensures
        change == change_of(latest, len),
{
    match latest {
        None => Change::Changed(None),
        Some(partial) => {
            if partial.len != len {
                Change::Changed(Some(partial))
            } else {
                Change::Unchanged(partial)
            }
        },
    }
}

/// The version for the next recorded state, or `None` where the counter
/// cannot go on.
pub fn next_version(latest: Option<Partial>) -> (version: Option<Version>)
    ensures
        version_after(latest) <= u64::MAX ==> version == Some(version_after(latest) as u64),
        version_after(latest) > u64::MAX ==> version.is_none(),
{
    match latest {
        None => Some(0),
        Some(partial) => partial.version.checked_add(1),
    }
}

/// A path as the platform hands it out: a byte string where paths are bytes,
/// a string of 16-bit units where paths are wide characters.
#[derive(Clone, Debug, PartialEq, Eq)]
pub enum NativePath {
    Bytes(Vec<u8>),
    Wide(Vec<u16>),
}

/// The two bytes of each 16-bit unit, low byte first.
pub open spec fn wide_repr(units: Seq<u16>) -> Seq<u8> {
    Seq::new(
        2 * units.len(),
        |i: int|
            if i % 2 == 0 {
                (units[i / 2] & 0xFF) as u8
            } else {
                ((units[i / 2] >> 8) & 0xFF) as u8
            },
    )
}

impl NativePath {
    /// The byte string under which a path is stored and looked up.
    pub open spec fn canonical(self) -> Seq<u8> {
        match self {
            NativePath::Bytes(bytes) => bytes@,
            NativePath::Wide(units) => wide_repr(units@),
        }
    }

    /// Whether the path's canonical byte string can be held in memory.
    pub open spec fn representable(self) -> bool {
        self.canonical().len() <= usize::MAX
    }
}

/// A 16-bit unit is recovered from its two bytes.
pub proof fn lemma_unit_from_bytes(a: u16, b: u16)
    requires
        (a & 0xFF) as u8 == (b & 0xFF) as u8,
        ((a >> 8) & 0xFF) as u8 == ((b >> 8) & 0xFF) as u8,
    ensures
        a == b,
{
    assert(((a & 0xFF) as u8 == (b & 0xFF) as u8 && ((a >> 8) & 0xFF) as u8 == ((b >> 8)
        & 0xFF) as u8) ==> a == b) by (bit_vector);
}

/// Two strings of 16-bit units with the same byte pairs are the same string.
pub proof fn lemma_wide_repr_injective(a: Seq<u16>, b: Seq<u16>)
    requires
        wide_repr(a) == wide_repr(b),
    ensures
        a == b,
{
    assert(wide_repr(a).len() == 2 * a.len());
    assert(wide_repr(b).len() == 2 * b.len());
    assert(a.len() == b.len());
    assert forall|k: int| 0 <= k < a.len() implies a[k] == b[k] by {
        assert((2 * k) % 2 == 0);
        assert((2 * k) / 2 == k);
        assert((2 * k + 1) % 2 == 1);
        assert((2 * k + 1) / 2 == k);
        assert(wide_repr(a)[2 * k] == (a[k] & 0xFF) as u8);
        assert(wide_repr(b)[2 * k] == (b[k] & 0xFF) as u8);
        assert(wide_repr(a)[2 * k + 1] == ((a[k] >> 8) & 0xFF) as u8);
        assert(wide_repr(b)[2 * k + 1] == ((b[k] >> 8) & 0xFF) as u8);
        lemma_unit_from_bytes(a[k], b[k]);
    }
    assert(a =~= b);
}

/// Two paths of the same kind that are stored under the same byte string are
/// the same path.
pub proof fn law_canonical_injective(a: NativePath, b: NativePath)
    requires
        a.canonical() == b.canonical(),
        (a is Bytes) == (b is Bytes),
    ensures
        a@ == b@,
{
    match (a, b) {
        (NativePath::Wide(x), NativePath::Wide(y)) => {
            lemma_wide_repr_injective(x@, y@);
        },
        _ => {},
    }
}

impl View for NativePath {
    type V = NativePathView;

    open spec fn view(&self) -> NativePathView {
        match *self {
            NativePath::Bytes(bytes) => NativePathView::Bytes(bytes@),
            NativePath::Wide(units) => NativePathView::Wide(units@),
        }
    }
}

/// What a `NativePath` holds.
pub ghost enum NativePathView {
    Bytes(Seq<u8>),
    Wide(Seq<u16>),
}

/// The byte string under which `path` is stored and looked up: the path's
/// own bytes, or the two bytes of each 16-bit unit, low byte first. `None`
/// where that string would be longer than memory can hold.
pub fn canonical_path_repr(path: &NativePath) -> (canonical: Option<Vec<u8>>)
    ensures
        path.representable() ==> canonical.is_some() && canonical.unwrap()@ == path.canonical(),
        !path.representable() ==> canonical.is_none(),
{
    match path {
        NativePath::Bytes(bytes) => {
            let mut canonical: Vec<u8> = Vec::with_capacity(bytes.len());
            canonical.extend_from_slice(bytes.as_slice());
            Some(canonical)
        },
        NativePath::Wide(units) => {
            if units.len() > usize::MAX / 2 {
                return None;
            }
            let mut canonical: Vec<u8> = Vec::with_capacity(units.len() * 2);
            let mut k: usize = 0;
            while k < units.len()
                invariant
                    k <= units.len(),
                    units.len() <= usize::MAX / 2,
                    canonical@.len() == 2 * k,
                    forall|i: int| 0 <= i < 2 * k ==> canonical@[i] == wide_repr(units@)[i],
                decreases units.len() - k,
            {
                let pair: u16 = units[k];
                assert(pair & 0xFF <= 0xFF) by (bit_vector);
                assert((pair >> 8) & 0xFF <= 0xFF) by (bit_vector);
                canonical.push((pair & 0xFF) as u8);
                canonical.push(((pair >> 8) & 0xFF) as u8);
                proof {
                    assert((2 * k) % 2 == 0);
                    assert((2 * k) / 2 == k);
                    assert((2 * k + 1) % 2 == 1);
                    assert((2 * k + 1) / 2 == k);
                }
                k += 1;
            }
            assert(canonical@ =~= wide_repr(units@));
            Some(canonical)
        },
    }
}

/// A file as a scan of the filesystem reports it: its path and its length in
/// bytes.
#[derive(Clone, Debug, PartialEq, Eq)]
pub struct ShallowInfo {
    file: NativePath,
    len: u64,
}

impl ShallowInfo {
    /// The reported path.
    pub closed spec fn spec_file(&self) -> NativePath {
        self.file
    }

    /// The reported length.
    pub closed spec fn spec_len(&self) -> u64 {
        self.len
    }

    pub fn new(file: NativePath, len: u64) -> (info: ShallowInfo)
        ensures
            info.spec_file() == file,
            info.spec_len() == len,
    {
        ShallowInfo { file, len }
    }

    /// The reported path.
    pub fn file(&self) -> (file: &NativePath)
        ensures
            *file == self.spec_file(),
    {
        &self.file
    }

    /// The reported length in bytes.
    pub fn len(&self) -> (len: u64)
        ensures
            len == self.spec_len(),
    {
        self.len
    }
}

} // verus!
