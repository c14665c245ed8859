//! Model download, without the transfer: where a file is fetched from, what a
//! status code means, and how many bytes have been stored.

use crate::error::{PluginError, PluginErrorView};
use crate::model::{DownloadModelRequest, DownloadModelResponse};
use crate::text::{lemma_pieces_len, non_empty, pieces, segments, split_segments, texts};
use crate::trusted::{total_chars, MAX_URL_CHARS};
use vstd::prelude::*;

verus! {

/// The path segments of the retrieval URL: the non-empty parts of the model
/// identifier, then `resolve`, the revision and the file name.
pub open spec fn download_segments(
    model_id: Seq<char>,
    revision: Seq<char>,
    filename: Seq<char>,
) -> Seq<Seq<char>> {
    segments(model_id, '/') + seq!["resolve"@, revision, filename]
}

/// Whether the texts of a request are short enough for one URL.
pub open spec fn fits_url(request: DownloadModelRequest) -> bool {
    request.model_id@.len() + request.revision@.len() + request.filename@.len() + 64
        <= MAX_URL_CHARS
}

/// Computes [`fits_url`].
pub fn within_url_limits(request: &DownloadModelRequest) -> (fits: bool)
    ensures
        fits == fits_url(*request),
{
    let limit: usize = MAX_URL_CHARS - 64;
    let model_id = request.model_id.as_str().unicode_len();
    let revision = request.revision.as_str().unicode_len();
    let filename = request.filename.as_str().unicode_len();
    model_id <= limit && revision <= limit - model_id && filename <= limit - model_id - revision
}

proof fn lemma_total_chars_pieces(s: Seq<char>, sep: char)
    ensures
        total_chars(pieces(s, sep)) == s.len() + 1,
    decreases s.len(),
{
    let all = pieces(s, sep);
    if s.len() == 0 {
        assert(total_chars(all.drop_last()) == 0);
    } else {
        lemma_total_chars_pieces(s.drop_last(), sep);
        lemma_pieces_len(s.drop_last(), sep);
        let before = pieces(s.drop_last(), sep);
        if s.last() == sep {
            assert(all.drop_last() =~= before);
        } else {
            assert(all.drop_last() =~= before.drop_last());
        }
    }
}

proof fn lemma_total_chars_non_empty(ps: Seq<Seq<char>>)
    ensures
        total_chars(non_empty(ps)) <= total_chars(ps),
    decreases ps.len(),
{
    if ps.len() > 0 {
        lemma_total_chars_non_empty(ps.drop_last());
        if ps.last().len() > 0 {
            assert(non_empty(ps.drop_last()).push(ps.last()).drop_last() =~= non_empty(
                ps.drop_last(),
            ));
        }
    }
}

/// The segments of a request that fits take no more room than the request.
pub proof fn lemma_download_segments_fit(
    model_id: Seq<char>,
    revision: Seq<char>,
    filename: Seq<char>,
)
    ensures
        total_chars(download_segments(model_id, revision, filename)) <= model_id.len()
            + revision.len() + filename.len() + 11,
{
    reveal_strlit("resolve");
    lemma_total_chars_pieces(model_id, '/');
    lemma_total_chars_non_empty(pieces(model_id, '/'));
    let base = segments(model_id, '/');
    let one = base.push("resolve"@);
    let two = one.push(revision);
    let all = two.push(filename);
    assert(all =~= download_segments(model_id, revision, filename));
    assert(all.drop_last() =~= two);
    assert(two.drop_last() =~= one);
    assert(one.drop_last() =~= base);
    assert(total_chars(two) == total_chars(one) + revision.len() + 1);
}

/// The path segments of the retrieval URL for `request`.
pub fn download_path_segments(request: &DownloadModelRequest) -> (out: Vec<String>)
    ensures
        texts(out@) == download_segments(
            request.model_id@,
            request.revision@,
            request.filename@,
        ),
{
    let mut out = split_segments(request.model_id.as_str(), '/');
    out.push("resolve".to_owned());
    out.push(request.revision.clone());
    out.push(request.filename.clone());
    out
}

/// What the host is to do for a download: fetch `url`, with `auth_token` as a
/// bearer token where there is one, and store the body at `target_path`.
#[derive(Debug, Clone, PartialEq, Eq)]
pub struct DownloadPlan {
    pub url: String,
    pub auth_token: Option<String>,
    pub target_path: String,
}

/// Whether an upstream status stands for success: the 2xx range.
pub open spec fn is_success_status(status: u16) -> bool {
    200 <= status < 300
}

/// The failure that an unsuccessful upstream status is reported as.
pub open spec fn status_failure(status: u16) -> PluginErrorView {
    PluginErrorView::Network {
        status: Some(status),
        message: "upstream responded with an unsuccessful status"@,
    }
}

/// Accepts a 2xx status and turns any other into a network failure that
/// carries it.
pub fn check_status(status: u16) -> (outcome: Result<(), PluginError>)
    ensures
        is_success_status(status) ==> outcome is Ok,
        !is_success_status(status) ==> outcome is Err && outcome->Err_0@ == status_failure(status),
{
    if 200 <= status && status < 300 {
        Ok(())
    } else {
        Err(
            PluginError::Network {
                status: Some(status),
                message: "upstream responded with an unsuccessful status".to_owned(),
            },
        )
    }
}

/// The sum of the chunk lengths.
pub open spec fn total_len(chunks: Seq<nat>) -> nat
    decreases chunks.len(),
{
    if chunks.len() == 0 {
        0
    } else {
        total_len(chunks.drop_last()) + chunks.last()
    }
}

/// The running byte count of a body that is stored chunk by chunk.
pub struct DownloadProgress {
    bytes_written: u64,
    lengths: Ghost<Seq<nat>>,
}

impl DownloadProgress {
    /// The lengths of the chunks stored so far, in order.
    pub closed spec fn chunks(&self) -> Seq<nat> {
        self.lengths@
    }

    /// The count is the sum of the chunk lengths.
    #[verifier::type_invariant]
    closed spec fn counted(&self) -> bool {
        self.bytes_written == total_len(self.lengths@)
    }

    /// Nothing stored yet.
    pub fn new() -> (progress: Self)
        ensures
            progress.chunks() == Seq::<nat>::empty(),
    {
        DownloadProgress { bytes_written: 0, lengths: Ghost(Seq::empty()) }
    }

    /// Whether a chunk of `chunk_len` bytes can still be counted.
    pub fn can_record(&self, chunk_len: usize) -> (fits: bool)
        ensures
            fits == (total_len(self.chunks()) + chunk_len <= u64::MAX),
    {
        proof {
            use_type_invariant(self);
        }
        chunk_len as u64 <= u64::MAX - self.bytes_written
    }

    /// Counts one more stored chunk.
    pub fn record_chunk(&mut self, chunk_len: usize)
        requires
            total_len(old(self).chunks()) + chunk_len <= u64::MAX,
        ensures
            final(self).chunks() == old(self).chunks().push(chunk_len as nat),
    {
        proof {
            use_type_invariant(&*self);
            assert(self.lengths@.push(chunk_len as nat).drop_last() =~= self.lengths@);
        }
        let bytes_written = self.bytes_written + chunk_len as u64;
        let ghost lengths = self.lengths@.push(chunk_len as nat);
        *self = DownloadProgress { bytes_written, lengths: Ghost(lengths) };
    }

    /// The bytes stored so far.
    pub fn bytes_written(&self) -> (count: u64)
        ensures
            count == total_len(self.chunks()),
    {
        proof {
            use_type_invariant(self);
        }
        self.bytes_written
    }
}

/// The answer to a download whose body was stored in full.
pub fn finish_download(plan: DownloadPlan, progress: DownloadProgress) -> (response:
    DownloadModelResponse)
    ensures
        response.saved_path == plan.target_path,
        response.bytes_written == total_len(progress.chunks()),
{
    let bytes_written = progress.bytes_written();
    DownloadModelResponse { saved_path: plan.target_path, bytes_written }
}

} // verus!
