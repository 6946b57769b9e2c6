//! Archive extractor. The downloaded bytes are parsed as a zip archive (the
//! zip crate does the format work, behind trusted declarations), every stored
//! entry name is validated against `is_safe_entry_name`, and the result is an
//! extraction plan: the ordered entries, each with its name, directory flag
//! and decompressed contents. Writing the planned entries to disk is the
//! caller's side; an archive with any unsafe name yields no plan at all, so
//! nothing of it is ever written.
use vstd::prelude::*;

use std::io::Cursor;
use zip::read::ZipArchive;

use crate::entry_name::{check_dir_name, check_entry_name, is_dir_name, is_safe_entry_name};
use crate::errors::ExtractError;
use crate::text::str_eq;

verus! {

/// Whether the bytes parse as a zip archive; a function of the bytes alone.
pub uninterp spec fn zip_parse_ok(bytes: Seq<u8>) -> bool;

/// The entries a zip archive holds, in archive order: each entry's stored
/// name and its decompressed contents. A function of the bytes alone.
pub uninterp spec fn zip_entries(bytes: Seq<u8>) -> Seq<(Seq<char>, Seq<u8>)>;

/// Whether entry `i` of the archive can be opened and fully decompressed; a
/// function of the bytes alone.
pub uninterp spec fn zip_entry_ok(bytes: Seq<u8>, i: int) -> bool;

/// The bytes an open archive reader was built over.
pub uninterp spec fn archive_bytes(a: ZipArchive<Cursor<Vec<u8>>>) -> Seq<u8>;

#[verifier::external_type_specification]
#[verifier::external_body]
#[verifier::reject_recursive_types(R)]
pub struct ExZipArchive<R>(ZipArchive<R>);

#[verifier::external_type_specification]
#[verifier::external_body]
#[verifier::reject_recursive_types(T)]
pub struct ExCursor<T>(Cursor<T>);

/// Relies on zip::read::ZipArchive::new over an in-memory cursor: whether the
/// bytes parse as a zip archive, and which entries they hold, depend on the
/// bytes alone.
#[verifier::external_body]
fn open_archive(bytes: &Vec<u8>) -> (r: Result<ZipArchive<Cursor<Vec<u8>>>, ExtractError>)
    ensures
        r is Ok <==> zip_parse_ok(bytes@),
        r matches Ok(a) ==> archive_bytes(a) == bytes@,
        r matches Err(e) ==> e == ExtractError::BadArchive,
{
    match ZipArchive::new(Cursor::new(bytes.clone())) {
        Ok(a) => Ok(a),
        Err(_) => Err(ExtractError::BadArchive),
    }
}

/// Relies on zip::read::ZipArchive::len: the number of entries the archive's
/// central directory holds.
#[verifier::external_body]
fn archive_len(a: &ZipArchive<Cursor<Vec<u8>>>) -> (n: usize)
    ensures
        n == zip_entries(archive_bytes(*a)).len(),
{
    a.len()
}

/// Relies on zip::read::ZipArchive::name_for_index: the stored name of entry
/// `i`, read from the central directory; present for every index below the
/// archive's length, so the fallback arm is unreachable.
#[verifier::external_body]
fn entry_name_at(a: &ZipArchive<Cursor<Vec<u8>>>, i: usize) -> (r: String)
    requires
        i < zip_entries(archive_bytes(*a)).len(),
    ensures
        r@ == zip_entries(archive_bytes(*a))[i as int].0,
{
    match a.name_for_index(i) {
        Some(n) => n.to_string(),
        None => String::new(),
    }
}

/// Relies on zip::read::ZipArchive::by_index and std::io::Read::read_to_end:
/// opens entry `i` and decompresses its contents. Over an in-memory cursor,
/// success and contents depend on the archive's bytes alone; reading moves
/// the cursor but leaves the bytes and the entry table unchanged.
#[verifier::external_body]
fn read_entry_data(a: &mut ZipArchive<Cursor<Vec<u8>>>, i: usize) -> (r: Result<
    Vec<u8>,
    ExtractError,
>)
    requires
        i < zip_entries(archive_bytes(*old(a))).len(),
    ensures
        archive_bytes(*final(a)) == archive_bytes(*old(a)),
        r is Ok <==> zip_entry_ok(archive_bytes(*old(a)), i as int),
        r matches Ok(d) ==> d@ == zip_entries(archive_bytes(*old(a)))[i as int].1,
        r matches Err(e) ==> e == ExtractError::BadArchive,
{
    let mut f = match a.by_index(i) {
        Ok(f) => f,
        Err(_) => {
            return Err(ExtractError::BadArchive);
        },
    };
    let mut buf: Vec<u8> = Vec::new();
    match std::io::Read::read_to_end(&mut f, &mut buf) {
        Ok(_) => Ok(buf),
        Err(_) => Err(ExtractError::BadArchive),
    }
}

/// One planned extraction entry: a validated stored name, whether it denotes
/// a directory, and the decompressed contents to write.
#[derive(Debug, Clone, PartialEq)]
pub struct PlannedEntry {
    pub name: String,
    pub is_dir: bool,
    pub data: Vec<u8>,
}

/// The mathematical content of a planned entry.
#[verifier::ext_equal]
pub ghost struct EntryModel {
    pub name: Seq<char>,
    pub is_dir: bool,
    pub data: Seq<u8>,
}

impl View for PlannedEntry {
    type V = EntryModel;

    open spec fn view(&self) -> EntryModel {
        EntryModel { name: self.name@, is_dir: self.is_dir, data: self.data@ }
    }
}

/// The planned entry an archive entry becomes.
pub open spec fn entry_model_of(e: (Seq<char>, Seq<u8>)) -> EntryModel {
    EntryModel { name: e.0, is_dir: is_dir_name(e.0), data: e.1 }
}

/// The models of a plan's entries, in plan order.
pub open spec fn plan_view(p: Seq<PlannedEntry>) -> Seq<EntryModel> {
    p.map_values(|e: PlannedEntry| e@)
}

/// Whether every stored name of the archive is safe to write.
pub open spec fn all_names_safe(b: Seq<u8>) -> bool {
    forall|i: int| 0 <= i < zip_entries(b).len() ==> is_safe_entry_name(zip_entries(b)[i].0)
}

/// Whether every entry of the archive decompresses.
pub open spec fn all_entries_ok(b: Seq<u8>) -> bool {
    forall|i: int| 0 <= i < zip_entries(b).len() ==> zip_entry_ok(b, i)
}

/// What extracting the bytes yields: `BadArchive` for bytes that do not parse
/// (or whose entries do not decompress), `PathTraversal` as soon as any
/// stored name is unsafe, and otherwise the full ordered plan.
pub open spec fn extraction_outcome(b: Seq<u8>) -> Result<Seq<EntryModel>, ExtractError> {
    if !zip_parse_ok(b) {
        Err(ExtractError::BadArchive)
    } else if !all_names_safe(b) {
        Err(ExtractError::PathTraversal)
    } else if !all_entries_ok(b) {
        Err(ExtractError::BadArchive)
    } else {
        Ok(zip_entries(b).map_values(|e: (Seq<char>, Seq<u8>)| entry_model_of(e)))
    }
}

/// Turns downloaded bytes into an extraction plan, or the failure that
/// `extraction_outcome` assigns to these bytes. Names are validated before
/// any contents are decompressed, so a traversal attempt is reported as such
/// whatever state its data is in.
pub fn plan_extraction(bytes: &Vec<u8>) -> (r: Result<Vec<PlannedEntry>, ExtractError>)
    ensures
        match r {
            Ok(plan) => extraction_outcome(bytes@) == Ok::<Seq<EntryModel>, ExtractError>(
                plan_view(plan@),
            ),
            Err(e) => extraction_outcome(bytes@) == Err::<Seq<EntryModel>, ExtractError>(e),
        },
{
    let mut archive = match open_archive(bytes) {
        Ok(a) => a,
        Err(e) => {
            return Err(e);
        },
    };
    let n: usize = archive_len(&archive);
    let mut names: Vec<String> = Vec::new();
    let mut i: usize = 0;
    while i < n
        invariant
            zip_parse_ok(bytes@),
            archive_bytes(archive) == bytes@,
            n == zip_entries(bytes@).len(),
            0 <= i <= n,
            names@.len() == i,
            forall|k: int| 0 <= k < i ==> names@[k]@ == zip_entries(bytes@)[k].0,
            forall|k: int| 0 <= k < i ==> is_safe_entry_name(zip_entries(bytes@)[k].0),
        decreases n - i,
    {
        let name = entry_name_at(&archive, i);
        if !check_entry_name(name.as_str()) {
            assert(!all_names_safe(bytes@));
            return Err(ExtractError::PathTraversal);
        }
        names.push(name);
        i += 1;
    }
    assert(all_names_safe(bytes@));
    let mut plan: Vec<PlannedEntry> = Vec::new();
    let mut j: usize = 0;
    while j < n
        invariant
            zip_parse_ok(bytes@),
            all_names_safe(bytes@),
            archive_bytes(archive) == bytes@,
            n == zip_entries(bytes@).len(),
            names@.len() == n,
            forall|k: int| 0 <= k < n ==> names@[k]@ == zip_entries(bytes@)[k].0,
            0 <= j <= n,
            plan@.len() == j,
            forall|k: int| 0 <= k < j ==> plan@[k]@ == entry_model_of(zip_entries(bytes@)[k]),
            forall|k: int| 0 <= k < j ==> zip_entry_ok(bytes@, k),
        decreases n - j,
    {
        let data = match read_entry_data(&mut archive, j) {
            Ok(d) => d,
            Err(e) => {
                assert(!all_entries_ok(bytes@));
                return Err(e);
            },
        };
        let name = names[j].clone();
        let is_dir = check_dir_name(name.as_str());
        let entry = PlannedEntry { name, is_dir, data };
        assert(entry@ == entry_model_of(zip_entries(bytes@)[j as int]));
        plan.push(entry);
        j += 1;
    }
    assert(all_entries_ok(bytes@));
    assert(plan_view(plan@) =~= zip_entries(bytes@).map_values(
        |e: (Seq<char>, Seq<u8>)| entry_model_of(e),
    ));
    Ok(plan)
}

/// Whether the plan holds a file entry under exactly the expected name.
pub open spec fn spec_has_executable(plan: Seq<EntryModel>, name: Seq<char>) -> bool {
    exists|k: int| 0 <= k < plan.len() && !plan[k].is_dir && plan[k].name == name
}

/// Looks for a file entry named exactly `name` in the plan.
pub fn find_executable(plan: &Vec<PlannedEntry>, name: &str) -> (b: bool)
    ensures
        b == spec_has_executable(plan_view(plan@), name@),
{
    let n: usize = plan.len();
    let mut i: usize = 0;
    while i < n
        invariant
            n == plan@.len(),
            0 <= i <= n,
            forall|k: int|
                0 <= k < i ==> !(!plan_view(plan@)[k].is_dir && plan_view(plan@)[k].name == name@),
        decreases n - i,
    {
        let e = &plan[i];
        if !e.is_dir && str_eq(e.name.as_str(), name) {
            assert(plan_view(plan@)[i as int] == plan@[i as int]@);
            return true;
        }
        assert(plan_view(plan@)[i as int] == plan@[i as int]@);
        i += 1;
    }
    false
}

/// Extraction is a function of the archive's bytes alone: any two outcomes
/// that `plan_extraction`'s contract allows for the same bytes agree, so
/// extracting the same well-formed archive twice plans byte-identical
/// contents.
pub proof fn lemma_extraction_deterministic(
    b: Seq<u8>,
    r1: Result<Seq<EntryModel>, ExtractError>,
    r2: Result<Seq<EntryModel>, ExtractError>,
)
    requires
        r1 == extraction_outcome(b),
        r2 == extraction_outcome(b),
    ensures
        r1 == r2,
{
}

/// A parseable archive is rejected with `PathTraversal` exactly when one of
/// its stored names is unsafe; it is never silently sanitized.
pub proof fn lemma_traversal_rejection(b: Seq<u8>)
    requires
        zip_parse_ok(b),
    ensures
        extraction_outcome(b) == Err::<Seq<EntryModel>, ExtractError>(ExtractError::PathTraversal)
            <==> !all_names_safe(b),
{
}

/// Every entry of a successful plan carries a safe name: what extraction
/// plans to write cannot escape the destination.
pub proof fn lemma_plan_entries_safe(b: Seq<u8>, plan: Seq<EntryModel>)
    requires
        extraction_outcome(b) == Ok::<Seq<EntryModel>, ExtractError>(plan),
    ensures
        forall|k: int| 0 <= k < plan.len() ==> is_safe_entry_name(#[trigger] plan[k].name),
{
    assert forall|k: int| 0 <= k < plan.len() implies is_safe_entry_name(
        #[trigger] plan[k].name,
    ) by {
        assert(plan[k] == entry_model_of(zip_entries(b)[k]));
    }
}

} // verus!
