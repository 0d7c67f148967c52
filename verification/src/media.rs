//! Media items: how they are made from an upload, stored in bulk, and
//! gathered from a batch of uploads.
use vstd::prelude::*;

use crate::b2::BackblazeUploadFileResponse;
use crate::dto::{opt_chars, GenerateMediaDto};
use crate::enums::{source_name, MediaSource};
use crate::error::{ApiError, INTERNAL_SERVER_ERROR};
use crate::text::{append_joined, decimal, decimal_string, join, views};

verus! {

/// A stored image.
#[derive(Debug)]
pub struct Media {
    pub id: String,
    pub user_id: String,
    pub file_id: String,
    pub post_id: Option<String>,
    pub url: String,
    pub width: i16,
    pub height: i16,
    pub mime_type: String,
    pub generate_media_dto: Option<GenerateMediaDto>,
    pub seed: Option<String>,
    pub source: String,
    pub model: Option<String>,
    pub created_at: i64,
}

/// The link under which B2 serves a stored file.
pub open spec fn download_link(b2_download_url: Seq<char>, file_id: Seq<char>) -> Seq<char> {
    b2_download_url + "/b2api/v1/b2_download_file_by_id?fileId="@ + file_id
}

/// The link under which B2 serves a stored file.
pub fn download_url(b2_download_url: &str, file_id: &str) -> (r: String)
    ensures
        r@ == download_link(b2_download_url@, file_id@),
{
    let mut url = String::from_str(b2_download_url);
    url.append("/b2api/v1/b2_download_file_by_id?fileId=");
    url.append(file_id);
    url
}

/// A copy of an optional string given by reference.
fn opt_str_to_string(o: Option<&str>) -> (r: Option<String>)
    ensures
        opt_chars(r) == match o {
            Some(s) => Some(s@),
            None => None,
        },
{
    match o {
        Some(s) => Some(String::from_str(s)),
        None => None,
    }
}

impl Media {
    /// The media item for an image generated for a stored request: its id,
    /// its owner, the request it belongs to, B2's record of the upload, the
    /// request's size (as signed 16-bit), generator and model, and the
    /// generating seed where known.
    pub fn from_request(
        id: &str,
        request_id: &str,
        dto: &GenerateMediaDto,
        seed: Option<&str>,
        b2_upload_responses: &BackblazeUploadFileResponse,
        user_id: &str,
        b2_download_url: &str,
        created_at: i64,
    ) -> (m: Media)
        ensures
            m.id@ == id@,
            m.user_id@ == user_id@,
            m.file_id@ == b2_upload_responses.file_id@,
            opt_chars(m.post_id) == Some(request_id@),
            m.url@ == download_link(b2_download_url@, b2_upload_responses.file_id@),
            m.width == dto.width as i16,
            m.height == dto.height as i16,
            m.mime_type@ == b2_upload_responses.content_type@,
            m.generate_media_dto == Some(*dto),
            opt_chars(m.seed) == match seed {
                Some(s) => Some(s@),
                None => None,
            },
            m.source@ == dto.generator@,
            opt_chars(m.model) == opt_chars(dto.model),
            m.created_at == created_at,
    {
        Media {
            id: String::from_str(id),
            user_id: String::from_str(user_id),
            file_id: b2_upload_responses.file_id.clone(),
            post_id: Some(String::from_str(request_id)),
            url: download_url(b2_download_url, b2_upload_responses.file_id.as_str()),
            width: dto.width as i16,
            height: dto.height as i16,
            mime_type: b2_upload_responses.content_type.clone(),
            generate_media_dto: Some(dto.duplicate()),
            seed: opt_str_to_string(seed),
            source: dto.generator.clone(),
            model: crate::dto::copy_opt_string(&dto.model),
            created_at,
        }
    }

    /// The media item for an imported image: its id, owner, B2's record of
    /// the upload, and the image's own size (as signed 16-bit); its source
    /// is "import".
    pub fn from_import(
        id: &str,
        b2_upload_responses: &BackblazeUploadFileResponse,
        image_width: usize,
        image_height: usize,
        user_id: &str,
        b2_download_url: &str,
        created_at: i64,
    ) -> (m: Media)
        ensures
            m.id@ == id@,
            m.user_id@ == user_id@,
            m.file_id@ == b2_upload_responses.file_id@,
            m.post_id is None,
            m.url@ == download_link(b2_download_url@, b2_upload_responses.file_id@),
            m.width == image_width as i16,
            m.height == image_height as i16,
            m.mime_type@ == b2_upload_responses.content_type@,
            m.generate_media_dto is None,
            m.seed is None,
            m.source@ == source_name(MediaSource::Import),
            m.model is None,
            m.created_at == created_at,
    {
        Media {
            id: String::from_str(id),
            user_id: String::from_str(user_id),
            file_id: b2_upload_responses.file_id.clone(),
            post_id: None,
            url: download_url(b2_download_url, b2_upload_responses.file_id.as_str()),
            width: image_width as i16,
            height: image_height as i16,
            mime_type: b2_upload_responses.content_type.clone(),
            generate_media_dto: None,
            seed: None,
            source: MediaSource::Import.value(),
            model: None,
            created_at,
        }
    }
}

/// The columns of a stored media item, in the order of the insert.
pub const MEDIA_COLUMN_COUNT: u8 = 13;

/// The head of the bulk insert of media items.
pub open spec fn insert_head() -> Seq<char> {
    "\n    INSERT INTO media (\n        id, user_id, file_id, post_id, url,\n        width, height, mime_type,\n        generate_media_dto, seed, source, model, created_at\n    ) "@
}

/// The placeholder numbered `k`.
pub open spec fn placeholder(k: nat) -> Seq<char> {
    "$"@ + decimal(k)
}

/// The placeholders of row `row`: the 13 numbers after those of the rows
/// before it.
pub open spec fn row_placeholders(row: nat) -> Seq<Seq<char>> {
    Seq::new(13, |j: int| placeholder((13 * row + j + 1) as nat))
}

/// The parenthesised placeholders of row `row`.
pub open spec fn row_tuple(row: nat) -> Seq<char> {
    "("@ + join(row_placeholders(row), ", "@) + ")"@
}

/// The bulk insert of `n` media items: one row of 13 placeholders per
/// item, numbered consecutively from 1.
pub open spec fn insert_media_sql(n: nat) -> Seq<char> {
    if n == 0 {
        insert_head()
    } else {
        insert_head() + "VALUES "@ + join(Seq::new(n, |r: int| row_tuple(r as nat)), ", "@)
    }
}

/// The parenthesised placeholders of row `row`.
fn row_tuple_string(row: u8) -> (r: String)
    requires
        13 * row + 13 <= 255,
    ensures
        r@ == row_tuple(row as nat),
{
    let mut parts: Vec<String> = Vec::new();
    let mut j: u8 = 0;
    while j < MEDIA_COLUMN_COUNT
        invariant
            13 * row + 13 <= 255,
            j <= 13,
            views(parts@) =~= row_placeholders(row as nat).take(j as int),
        decreases 13 - j,
    {
        let index: u8 = 13 * row + j + 1;
        let mut p = String::from_str("$");
        let digits = decimal_string(index as u64);
        p.append(digits.as_str());
        let ghost before = parts@;
        parts.push(p);
        assert(views(parts@) =~= views(before).push(p@));
        j = j + 1;
        assert(views(parts@) =~= row_placeholders(row as nat).take(j as int));
    }
    assert(row_placeholders(row as nat).take(13) =~= row_placeholders(row as nat));
    let mut out = String::from_str("(");
    append_joined(&mut out, &parts, ", ");
    out.append(")");
    out
}

/// The bulk insert of `count` media items. Up to 19 items fit the 8-bit
/// placeholder counter.
pub fn insert_media_statement(count: usize) -> (r: String)
    requires
        13 * count + 1 <= 255,
    ensures
        r@ == insert_media_sql(count as nat),
{
    let mut sql = String::from_str(
        "\n    INSERT INTO media (\n        id, user_id, file_id, post_id, url,\n        width, height, mime_type,\n        generate_media_dto, seed, source, model, created_at\n    ) ",
    );
    if count == 0 {
        return sql;
    }
    let mut rows: Vec<String> = Vec::new();
    let mut i: usize = 0;
    while i < count
        invariant
            13 * count + 1 <= 255,
            i <= count,
            views(rows@) =~= Seq::new(count as nat, |r: int| row_tuple(r as nat)).take(i as int),
        decreases count - i,
    {
        let t = row_tuple_string(i as u8);
        let ghost before = rows@;
        rows.push(t);
        assert(views(rows@) =~= views(before).push(t@));
        i = i + 1;
        assert(views(rows@) =~= Seq::new(count as nat, |r: int| row_tuple(r as nat)).take(
            i as int,
        ));
    }
    assert(Seq::new(count as nat, |r: int| row_tuple(r as nat)).take(count as int) =~= Seq::new(
        count as nat,
        |r: int| row_tuple(r as nat),
    ));
    sql.append("VALUES ");
    append_joined(&mut sql, &rows, ", ");
    sql
}

/// The values of the results that succeeded, in order.
pub open spec fn successes<T>(s: Seq<Result<T, ApiError>>) -> Seq<T>
    decreases s.len(),
{
    if s.len() == 0 {
        Seq::empty()
    } else {
        (match s[0] {
            Ok(x) => seq![x],
            Err(_) => Seq::empty(),
        }) + successes(s.drop_first())
    }
}

/// The items of a batch whose uploads succeeded, in order; the batch fails
/// when none did.
pub fn collect_successes<T>(results: Vec<Result<T, ApiError>>) -> (r: Result<Vec<T>, ApiError>)
    ensures
        successes(results@).len() > 0 <==> r is Ok,
        r matches Ok(v) ==> v@ == successes(results@),
        r matches Err(e) ==> e.code == INTERNAL_SERVER_ERROR && e.message@
            == "Failed to upload files."@,
{
    let ghost all = results@;
    let mut rest = results;
    let mut out: Vec<T> = Vec::new();
    while rest.len() > 0
        invariant
            successes(all) == out@ + successes(rest@),
        decreases rest.len(),
    {
        let ghost before = rest@;
        let first = rest.remove(0);
        assert(rest@ =~= before.drop_first());
        match first {
            Ok(x) => {
                let ghost prev = out@;
                out.push(x);
                assert(out@ + successes(rest@) =~= prev + (seq![x] + successes(rest@)));
            },
            Err(_) => {
                assert(successes(before) =~= successes(rest@));
            },
        }
    }
    assert(out@ + successes(rest@) =~= out@);
    if out.len() == 0 {
        return Err(ApiError::new(INTERNAL_SERVER_ERROR, "Failed to upload files."));
    }
    Ok(out)
}

} // verus!
