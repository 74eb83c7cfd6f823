//! The ZIP adapter: locate and return the bytes of the `.dat` entry of a
//! GLF container.
//!
//! The archive is parsed from an in-memory byte buffer, so every query below
//! is a function of those bytes alone. The adapter lists the entry names,
//! picks the first whose name contains `dat` (a verified search), and reads
//! that entry.

use vstd::prelude::*;

verus! {

/// The entry names of the ZIP archive `zip`, one per distinct name, in
/// central-directory order, as byte strings; `None` where the archive cannot
/// be opened. A function of the bytes alone.
pub uninterp spec fn zip_names_of(zip: Seq<u8>) -> Option<Seq<Seq<u8>>>;

/// The stored content of entry `index` of the ZIP archive `zip`; `None`
/// where the archive cannot be opened or the entry cannot be read. A
/// function of the bytes alone.
pub uninterp spec fn zip_entry_of(zip: Seq<u8>, index: int) -> Option<Seq<u8>>;

/// List the entry names of the archive.
///
/// Relies on zip's `ZipArchive::new` over an in-memory cursor and
/// `ZipArchive::file_names`, which walks the archive's entry index: one name
/// per distinct entry name, in central-directory order.
#[verifier::external_body]
fn zip_entry_names(bytes: &Vec<u8>) -> (r: Option<Vec<Vec<u8>>>)
    ensures
        match r {
            Some(names) => zip_names_of(bytes@) == Some(names.deep_view()),
            None => zip_names_of(bytes@) is None,
        },
{
    match zip::ZipArchive::new(std::io::Cursor::new(bytes.as_slice())) {
        Ok(archive) => Some(archive.file_names().map(|n| n.as_bytes().to_vec()).collect()),
        Err(_) => None,
    }
}

/// Read the stored content of one entry of the archive.
///
/// Relies on zip's `ZipArchive::new` over an in-memory cursor,
/// `ZipArchive::by_index` and `Read::read_to_end` on the returned entry
/// reader, which yields the decompressed content of the entry at `index` of
/// the same entry index that `file_names` walks.
#[verifier::external_body]
fn zip_entry_data(bytes: &Vec<u8>, index: usize) -> (r: Option<Vec<u8>>)
    ensures
        match r {
            Some(out) => zip_entry_of(bytes@, index as int) == Some(out@),
            None => zip_entry_of(bytes@, index as int) is None,
        },
{
    match zip::ZipArchive::new(std::io::Cursor::new(bytes.as_slice())) {
        Ok(mut archive) => match archive.by_index(index) {
            Ok(mut entry) => {
                let mut buffer: Vec<u8> = Vec::new();
                match std::io::Read::read_to_end(&mut entry, &mut buffer) {
                    Ok(_) => Some(buffer),
                    Err(_) => None,
                }
            },
            Err(_) => None,
        },
        Err(_) => None,
    }
}

/// Whether the byte string `name` contains the substring `dat`.
pub open spec fn name_contains_dat(name: Seq<u8>) -> bool {
    exists|k: int|
        0 <= k && k + 3 <= name.len() && #[trigger] name.subrange(k, k + 3) == seq![
            0x64u8,
            0x61u8,
            0x74u8,
        ]
}

/// The first index at or after `from` of a name that contains `dat`.
pub open spec fn first_dat_index(names: Seq<Seq<u8>>, from: int) -> Option<int>
    decreases names.len() - from,
{
    if from < 0 || from >= names.len() {
        None
    } else if name_contains_dat(names[from]) {
        Some(from)
    } else {
        first_dat_index(names, from + 1)
    }
}

/// The bytes of the `.dat` entry of the GLF container `zip`: the content of
/// the first entry whose name contains `dat`; `None` where the archive is
/// unreadable, no name matches, or the entry cannot be read.
pub open spec fn spec_dat_entry(zip: Seq<u8>) -> Option<Seq<u8>> {
    match zip_names_of(zip) {
        None => None,
        Some(names) => match first_dat_index(names, 0) {
            None => None,
            Some(i) => zip_entry_of(zip, i),
        },
    }
}

/// Whether `name` contains the substring `dat`.
fn name_has_dat(name: &Vec<u8>) -> (r: bool)
    ensures
        r == name_contains_dat(name@),
{
    let n: usize = name.len();
    if n < 3 {
        return false;
    }
    let mut k: usize = 0;
    while k <= n - 3
        invariant
            n == name@.len(),
            3 <= n,
            k <= n - 2,
            forall|j: int|
                0 <= j < k ==> #[trigger] name@.subrange(j, j + 3) != seq![
                    0x64u8,
                    0x61u8,
                    0x74u8,
                ],
        decreases name@.len() - k,
    {
        if name[k] == 0x64 && name[k + 1] == 0x61 && name[k + 2] == 0x74 {
            proof {
                assert(name@.subrange(k as int, k + 3) =~= seq![0x64u8, 0x61u8, 0x74u8]);
            }
            return true;
        }
        proof {
            assert(name@.subrange(k as int, k + 3) != seq![0x64u8, 0x61u8, 0x74u8]);
        }
        k = k + 1;
    }
    false
}

/// GLF files are ZIP containers; return the bytes of the entry whose name
/// contains `dat`, or `None` where the container is unreadable or holds no
/// such entry.
///
/// * `bytes` - the raw bytes of the whole container.
pub fn read_zip_dat(bytes: &Vec<u8>) -> (r: Option<Vec<u8>>)
    ensures
        match r {
            Some(d) => spec_dat_entry(bytes@) == Some(d@),
            None => spec_dat_entry(bytes@) is None,
        },
{
    let names = match zip_entry_names(bytes) {
        Some(names) => names,
        None => {
            return None;
        },
    };
    let mut i: usize = 0;
    while i < names.len()
        invariant
            i <= names@.len(),
            zip_names_of(bytes@) == Some(names.deep_view()),
            first_dat_index(names.deep_view(), 0) == first_dat_index(names.deep_view(), i as int),
        decreases names@.len() - i,
    {
        let hit = name_has_dat(&names[i]);
        proof {
            assert(names.deep_view()[i as int] == names@[i as int]@);
        }
        if hit {
            return zip_entry_data(bytes, i);
        }
        i = i + 1;
    }
    None
}

} // verus!
