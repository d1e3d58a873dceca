//! Raw records as the runtime reports them, and their normalisation into
//! fixed-shape display rows.
use vstd::prelude::*;
use vstd::string::{StrSliceExecFns, StringExecFns};

use crate::text::{
    decimal, decimal_text, join_texts, joined, leading, leading_text, texts,
};

verus! {

/// One stored image: its content-hash identifier, its size in bytes and its
/// repository tags.
pub struct ImageRecord {
    pub id: String,
    pub size: i64,
    pub repo_tags: Vec<String>,
}

/// One container as a listing reports it; every field may be missing.
pub struct ContainerRecord {
    pub id: Option<String>,
    pub names: Option<Vec<String>>,
    pub image: Option<String>,
    pub state: Option<String>,
}

/// One container as a detailed inspection reports it. `status` is the
/// lifecycle status of its state object, `None` when the record carries no
/// state or the state no status.
pub struct InspectRecord {
    pub id: Option<String>,
    pub name: Option<String>,
    pub image: Option<String>,
    pub size_root_fs: Option<i64>,
    pub status: Option<String>,
}

/// Display row of an image: short identifier, primary tag, size in kilobytes.
pub struct ImageRow {
    pub id: String,
    pub tag: String,
    pub size_kb: String,
}

/// Display row of a listed container.
pub struct ContainerRow {
    pub id: String,
    pub name: String,
    pub image: String,
    pub state: String,
}

/// Display row of an inspected container.
pub struct InspectRow {
    pub id: String,
    pub name: String,
    pub image: String,
    pub size: String,
    pub status: String,
}

/// Why a record could not be turned into a row.
#[derive(Debug, Clone, Copy, PartialEq, Eq, Structural)]
pub enum RecordError {
    /// The image identifier does not start with the content-hash prefix.
    MissingDigestPrefix,
    /// Fewer than twelve characters follow the content-hash prefix.
    ShortIdentifier,
    /// The image has no repository tag.
    NoTags,
    /// The inspected container reports no lifecycle status.
    MissingStatus,
}

/// The prefix that marks a content-hash identifier.
pub open spec fn digest_prefix() -> Seq<char> {
    seq!['s', 'h', 'a', '2', '5', '6', ':']
}

/// Number of characters kept of an identifier.
pub open spec fn short_id_len() -> nat {
    12
}

pub open spec fn has_digest_prefix(id: Seq<char>) -> bool {
    id.len() >= digest_prefix().len() && id.subrange(0, digest_prefix().len() as int)
        == digest_prefix()
}

/// What keeps an image record from making a row, if anything; checked in
/// this order.
pub open spec fn image_fault(rec: ImageRecord) -> Option<RecordError> {
    if !has_digest_prefix(rec.id@) {
        Some(RecordError::MissingDigestPrefix)
    } else if rec.id@.len() < digest_prefix().len() + short_id_len() {
        Some(RecordError::ShortIdentifier)
    } else if rec.repo_tags@.len() == 0 {
        Some(RecordError::NoTags)
    } else {
        None
    }
}

/// Whole kilobytes in `bytes`, rounded down.
pub open spec fn kilobytes(bytes: int) -> int {
    bytes / 1024
}

/// The twelve characters that follow the content-hash prefix.
pub open spec fn short_image_id(id: Seq<char>) -> Seq<char> {
    id.subrange(
        digest_prefix().len() as int,
        (digest_prefix().len() + short_id_len()) as int,
    )
}

/// `row` is the display row of the well-formed image record `rec`.
pub open spec fn image_row_of(rec: ImageRecord, row: ImageRow) -> bool {
    &&& row.id@ == short_image_id(rec.id@)
    &&& row.tag@ == rec.repo_tags@[0]@
    &&& row.size_kb@ == decimal(kilobytes(rec.size as int))
}

/// A present text, or the empty text when absent.
pub open spec fn text_or_empty(o: Option<String>) -> Seq<char> {
    match o {
        Some(s) => s@,
        None => Seq::empty(),
    }
}

/// The placeholder shown for a container without names.
pub open spec fn no_name() -> Seq<char> {
    seq!['n', '/', 'a']
}

/// The separator between the names of one container.
pub open spec fn name_separator() -> Seq<char> {
    seq![',', ' ']
}

/// `s` without one leading `/`, if it has one.
pub open spec fn strip_slash(s: Seq<char>) -> Seq<char> {
    if s.len() > 0 && s[0] == '/' {
        s.drop_first()
    } else {
        s
    }
}

/// Display name of a container: its names joined, one leading `/` removed
/// from the joined text, or the placeholder when there are none.
pub open spec fn display_name(names: Option<Vec<String>>) -> Seq<char> {
    match names {
        Some(v) => if v@.len() == 0 {
            no_name()
        } else {
            strip_slash(joined(texts(v@), name_separator()))
        },
        None => no_name(),
    }
}

/// `row` is the display row of the container record `rec`.
pub open spec fn container_row_of(rec: ContainerRecord, row: ContainerRow) -> bool {
    &&& row.id@ == leading(text_or_empty(rec.id), short_id_len())
    &&& row.name@ == display_name(rec.names)
    &&& row.image@ == text_or_empty(rec.image)
    &&& row.state@ == text_or_empty(rec.state)
}

/// Size column of an inspected container: its decimal size, or `-`.
pub open spec fn size_column(size: Option<i64>) -> Seq<char> {
    match size {
        Some(n) => decimal(n as int),
        None => seq!['-'],
    }
}

/// `row` is the display row of the inspected container `rec`, which has a status.
pub open spec fn inspect_row_of(rec: InspectRecord, row: InspectRow) -> bool {
    &&& row.id@ == text_or_empty(rec.id)
    &&& row.name@ == text_or_empty(rec.name)
    &&& row.image@ == text_or_empty(rec.image)
    &&& row.size@ == size_column(rec.size_root_fs)
    &&& row.status@ == text_or_empty(rec.status)
}

fn starts_with_digest_prefix(id: &str) -> (r: bool)
    ensures
        r == has_digest_prefix(id@),
{
    let len = id.unicode_len();
    if len < 7 {
        return false;
    }
    let r = id.get_char(0) == 's' && id.get_char(1) == 'h' && id.get_char(2) == 'a'
        && id.get_char(3) == '2' && id.get_char(4) == '5' && id.get_char(5) == '6'
        && id.get_char(6) == ':';
    if r {
        assert(id@.subrange(0, 7) =~= digest_prefix());
    } else {
        assert(id@.subrange(0, 7) != digest_prefix()) by {
            if id@.subrange(0, 7) == digest_prefix() {
                assert(id@.subrange(0, 7)[0] == id@[0]);
                assert(id@.subrange(0, 7)[1] == id@[1]);
                assert(id@.subrange(0, 7)[2] == id@[2]);
                assert(id@.subrange(0, 7)[3] == id@[3]);
                assert(id@.subrange(0, 7)[4] == id@[4]);
                assert(id@.subrange(0, 7)[5] == id@[5]);
                assert(id@.subrange(0, 7)[6] == id@[6]);
            }
        }
    }
    r
}

fn kilobytes_of(bytes: i64) -> (r: i64)
    ensures
        r as int == kilobytes(bytes as int),
{
    if bytes >= 0 {
        bytes / 1024
    } else {
        let m: i64 = -(bytes + 1);
        let q: i64 = m / 1024;
        assert(bytes as int / 1024 == -(q as int) - 1) by (nonlinear_arith)
            requires
                m == -(bytes + 1),
                m >= 0,
                q == m / 1024,
        ;
        -q - 1
    }
}

/// Turns an image record into its display row. Fails, and makes no row,
/// when the identifier lacks the content-hash prefix or twelve characters
/// after it, or when the image has no tag.
pub fn normalize_image(rec: &ImageRecord) -> (r: Result<ImageRow, RecordError>)
    ensures
        r is Err <==> image_fault(*rec) is Some,
        r matches Err(e) ==> image_fault(*rec) == Some(e),
        r matches Ok(row) ==> image_row_of(*rec, row),
{
    let id = rec.id.as_str();
    if !starts_with_digest_prefix(id) {
        return Err(RecordError::MissingDigestPrefix);
    }
    let len = id.unicode_len();
    if len < 19 {
        return Err(RecordError::ShortIdentifier);
    }
    if rec.repo_tags.len() == 0 {
        return Err(RecordError::NoTags);
    }
    let short = id.substring_char(7, 19).to_owned();
    let tag = rec.repo_tags[0].clone();
    let size_kb = decimal_text(kilobytes_of(rec.size));
    Ok(ImageRow { id: short, tag, size_kb })
}

fn text_or_empty_of(o: &Option<String>) -> (r: String)
    ensures
        r@ == text_or_empty(*o),
{
    match o {
        Some(s) => s.clone(),
        None => String::new(),
    }
}

fn display_name_of(names: &Option<Vec<String>>) -> (r: String)
    ensures
        r@ == display_name(*names),
{
    proof { reveal_strlit("n/a"); }
    match names {
        Some(v) => {
            if v.len() == 0 {
                "n/a".to_owned()
            } else {
                let all = join_texts(v, ", ");
                proof { reveal_strlit(", "); }
                assert(", "@ =~= name_separator());
                let len = all.as_str().unicode_len();
                if len > 0 && all.as_str().get_char(0) == '/' {
                    let rest = all.as_str().substring_char(1, len).to_owned();
                    assert(rest@ =~= all@.drop_first());
                    rest
                } else {
                    all
                }
            }
        },
        None => "n/a".to_owned(),
    }
}

/// Turns a container record into its display row. Never fails: a missing
/// identifier gives an empty column, missing names the `n/a` placeholder,
/// a missing image or state an empty column.
pub fn normalize_container(rec: &ContainerRecord) -> (row: ContainerRow)
    ensures
        container_row_of(*rec, row),
{
    let id = match &rec.id {
        Some(s) => leading_text(s.as_str(), 12),
        None => String::new(),
    };
    ContainerRow {
        id,
        name: display_name_of(&rec.names),
        image: text_or_empty_of(&rec.image),
        state: text_or_empty_of(&rec.state),
    }
}

/// Turns an inspected container into its display row. Fails exactly when
/// the record reports no lifecycle status.
pub fn normalize_inspection(rec: &InspectRecord) -> (r: Result<InspectRow, RecordError>)
    ensures
        r is Err <==> rec.status is None,
        r matches Err(e) ==> e == RecordError::MissingStatus,
        r matches Ok(row) ==> inspect_row_of(*rec, row),
{
    let status = match &rec.status {
        Some(s) => s.clone(),
        None => {
            return Err(RecordError::MissingStatus);
        },
    };
    let size = match rec.size_root_fs {
        Some(n) => decimal_text(n),
        None => {
            proof {
                reveal_strlit("-");
                assert("-"@ =~= seq!['-']);
            }
            "-".to_owned()
        },
    };
    Ok(
        InspectRow {
            id: text_or_empty_of(&rec.id),
            name: text_or_empty_of(&rec.name),
            image: text_or_empty_of(&rec.image),
            size,
            status,
        },
    )
}

/// Normalises every image record, in order. Fails with the fault of the
/// first malformed record, and then makes no rows at all.
pub fn normalize_images(recs: &Vec<ImageRecord>) -> (r: Result<Vec<ImageRow>, RecordError>)
    ensures
        r is Ok <==> forall|i: int| 0 <= i < recs@.len() ==> image_fault(#[trigger] recs@[i]) is None,
        r matches Ok(rows) ==> rows@.len() == recs@.len() && forall|i: int|
            0 <= i < recs@.len() ==> image_row_of(#[trigger] recs@[i], rows@[i]),
        r matches Err(e) ==> exists|i: int|
            0 <= i < recs@.len() && image_fault(#[trigger] recs@[i]) == Some(e) && forall|j: int|
                0 <= j < i ==> image_fault(#[trigger] recs@[j]) is None,
{
    let mut rows: Vec<ImageRow> = Vec::new();
    let mut i: usize = 0;
    while i < recs.len()
        invariant
            i <= recs@.len(),
            rows@.len() == i,
            forall|j: int| 0 <= j < i ==> image_fault(#[trigger] recs@[j]) is None,
            forall|j: int| 0 <= j < i ==> image_row_of(#[trigger] recs@[j], rows@[j]),
        decreases recs@.len() - i,
    {
        match normalize_image(&recs[i]) {
            Ok(row) => {
                rows.push(row);
            },
            Err(e) => {
                assert(image_fault(recs@[i as int]) == Some(e));
                return Err(e);
            },
        }
        i = i + 1;
    }
    Ok(rows)
}

/// Normalises every container record, in order; never fails.
pub fn normalize_containers(recs: &Vec<ContainerRecord>) -> (rows: Vec<ContainerRow>)
    ensures
        rows@.len() == recs@.len(),
        forall|i: int| 0 <= i < recs@.len() ==> container_row_of(#[trigger] recs@[i], rows@[i]),
{
    let mut rows: Vec<ContainerRow> = Vec::new();
    let mut i: usize = 0;
    while i < recs.len()
        invariant
            i <= recs@.len(),
            rows@.len() == i,
            forall|j: int| 0 <= j < i ==> container_row_of(#[trigger] recs@[j], rows@[j]),
        decreases recs@.len() - i,
    {
        rows.push(normalize_container(&recs[i]));
        i = i + 1;
    }
    rows
}

/// For a well-formed image record, the row's identifier is twelve
/// characters long and holds the 8th to the 19th characters of the record's
/// identifier (the twelve after the prefix), and its size column is the
/// decimal text of the whole kilobytes in the record's size.
pub proof fn image_row_law(rec: ImageRecord, row: ImageRow)
    requires
        image_fault(rec) is None,
        image_row_of(rec, row),
    ensures
        row.id@.len() == 12,
        forall|k: int| 0 <= k < 12 ==> #[trigger] row.id@[k] == rec.id@[k + 7],
        row.size_kb@ == decimal(rec.size as int / 1024),
        row.tag@ == rec.repo_tags@[0]@,
{
}

} // verus!
