//! The verified download of one file: the decisions taken between the
//! transport's events, from the response to the bytes handed over for
//! writing.
//!
//! The caller performs the I/O. It reports what the transport did as a
//! [`Response`], then as one [`StreamItem`] after another, and does what the
//! returned [`Step`] says. Bytes are handed over for writing only once the
//! whole body has arrived and its SHA-512 digest agrees with the expected
//! one, where one was given.

use crate::hash::{
    absorbed, eq_ignore_ascii_case, hasher_finalize, hasher_new, hasher_update, hex,
    matches_ignoring_case, sha512, to_hex, HashAccumulator,
};
use vstd::prelude::*;
use vstd::string::StringExecFns;

verus! {

/// A fault of the transport or of the file system.
#[derive(Debug, Clone, Copy, PartialEq, Eq, Structural)]
pub enum DownloadError {
    /// No response arrived, or the server answered with a status that is
    /// not a success.
    RequestFailed,
    /// The response declares no content length.
    MissingLength,
    /// Reading the body failed before its end.
    StreamReadFailed,
    /// The file could not be created, or not all of it was written.
    WriteFailed,
}

/// Why a download did not complete.
#[derive(Debug, Clone, PartialEq, Eq)]
pub enum DownloadFailure {
    /// The transport or the file system failed.
    Transfer(DownloadError),
    /// The digest of the received bytes is not the expected one.
    HashMismatch { expected: String, computed: String },
}

/// A [`DownloadFailure`] with its strings as sequences of characters.
pub enum FailureView {
    Transfer(DownloadError),
    HashMismatch { expected: Seq<char>, computed: Seq<char> },
}

impl View for DownloadFailure {
    type V = FailureView;

    open spec fn view(&self) -> FailureView {
        match *self {
            DownloadFailure::Transfer(e) => FailureView::Transfer(e),
            DownloadFailure::HashMismatch { expected, computed } => FailureView::HashMismatch {
                expected: expected@,
                computed: computed@,
            },
        }
    }
}

impl DownloadFailure {
    /// The text that tells the user of this failure. It names the address
    /// or the file that failed, and for a mismatch both digests.
    pub open spec fn message_text(self, url: Seq<char>, path: Seq<char>) -> Seq<char> {
        match self {
            DownloadFailure::Transfer(DownloadError::RequestFailed) => "Failed to GET from '"@
                + url + "'"@,
            DownloadFailure::Transfer(DownloadError::MissingLength) =>
                "Failed to get content length from '"@ + url + "'"@,
            DownloadFailure::Transfer(DownloadError::StreamReadFailed) =>
                "Error while downloading file from '"@ + url + "'"@,
            DownloadFailure::Transfer(DownloadError::WriteFailed) =>
                "Error while writing to file '"@ + path + "'"@,
            DownloadFailure::HashMismatch { expected, computed } => "Hash mismatch! Expected: "@
                + expected@ + ", Found: "@ + computed@,
        }
    }

    /// The message for the user, for a download from `url` into `path`.
    pub fn message(&self, url: &str, path: &str) -> (text: String)
        ensures
            text@ == self.message_text(url@, path@),
    {
        match self {
            DownloadFailure::Transfer(DownloadError::RequestFailed) => {
                String::from_str("Failed to GET from '").concat(url).concat("'")
            },
            DownloadFailure::Transfer(DownloadError::MissingLength) => {
                String::from_str("Failed to get content length from '").concat(url).concat("'")
            },
            DownloadFailure::Transfer(DownloadError::StreamReadFailed) => {
                String::from_str("Error while downloading file from '").concat(url).concat("'")
            },
            DownloadFailure::Transfer(DownloadError::WriteFailed) => {
                String::from_str("Error while writing to file '").concat(path).concat("'")
            },
            DownloadFailure::HashMismatch { expected, computed } => {
                String::from_str("Hash mismatch! Expected: ").concat(expected.as_str()).concat(
                    ", Found: ",
                ).concat(computed.as_str())
            },
        }
    }
}

/// What the server answered to the request.
#[derive(Debug, Clone, Copy, PartialEq, Eq, Structural)]
pub enum Response {
    /// The request could not be sent, or no response arrived.
    Unreachable,
    /// A response arrived, with this status and declared content length.
    Answered { status: u16, content_length: Option<u64> },
}

/// What reading the body gave next.
#[derive(Debug, Clone, PartialEq, Eq)]
pub enum StreamItem {
    /// The next bytes of the body.
    Chunk(Vec<u8>),
    /// The read failed.
    Broken,
    /// The body has ended.
    End,
}

/// How the write of the file went.
#[derive(Debug, Clone, Copy, PartialEq, Eq, Structural)]
pub enum WriteResult {
    /// The file could not be created.
    NotCreated,
    /// The file was created, but not all bytes were written.
    Incomplete,
    /// All bytes are in the file.
    Complete,
}

/// The result of a completed download.
#[derive(Debug, Clone, PartialEq, Eq)]
pub struct DownloadOutcome {
    pub local_path: String,
    pub bytes_written: u64,
    /// Whether the content was checked against an expected digest.
    pub verified: bool,
}

/// The mathematical state of a download in progress.
pub struct DownloadView {
    /// The content length that the response declared.
    pub total: nat,
    /// All bytes received so far.
    pub data: Seq<u8>,
    /// The expected digest in hexadecimal, if one was given.
    pub expected: Option<Seq<char>>,
}

/// The content of a finished download.
pub struct PayloadView {
    pub bytes: Seq<u8>,
    pub verified: bool,
}

/// Whether a status code is a success.
pub open spec fn is_success(status: u16) -> bool {
    200 <= status < 300
}

impl DownloadView {
    /// The state right after a response that declares `total` bytes.
    pub open spec fn opened(total: nat, expected: Option<Seq<char>>) -> DownloadView {
        DownloadView { total, data: Seq::empty(), expected }
    }

    /// The progress position: the number of bytes received, but never more
    /// than the declared total.
    pub open spec fn position(self) -> nat {
        if self.data.len() <= self.total {
            self.data.len()
        } else {
            self.total
        }
    }

    /// The state after one more chunk.
    pub open spec fn receive(self, chunk: Seq<u8>) -> DownloadView {
        DownloadView { data: self.data + chunk, ..self }
    }

    /// The state after a sequence of chunks, in their order.
    pub open spec fn receive_all(self, chunks: Seq<Seq<u8>>) -> DownloadView
        decreases chunks.len(),
    {
        if chunks.len() == 0 {
            self
        } else {
            self.receive_all(chunks.drop_last()).receive(chunks.last())
        }
    }

    /// The digest of the received bytes, in lowercase hexadecimal.
    pub open spec fn computed_hash(self) -> Seq<char> {
        hex(sha512(self.data))
    }

    /// The verdict once the body has ended: the bytes to write, or the
    /// mismatch of the digests.
    pub open spec fn finish(self) -> Result<PayloadView, FailureView> {
        match self.expected {
            None => Ok(PayloadView { bytes: self.data, verified: false }),
            Some(expected) => if eq_ignore_ascii_case(expected, self.computed_hash()) {
                Ok(PayloadView { bytes: self.data, verified: true })
            } else {
                Err(FailureView::HashMismatch { expected, computed: self.computed_hash() })
            },
        }
    }
}

/// The view of an optional string.
pub open spec fn view_of(text: Option<String>) -> Option<Seq<char>> {
    match text {
        None => None,
        Some(s) => Some(s@),
    }
}

/// A download whose response has arrived and whose body is being read.
pub struct Download {
    total: u64,
    received: u64,
    data: Vec<u8>,
    hasher: HashAccumulator,
    expected_hash: Option<String>,
}

/// The bytes of a finished download, ready to be written.
#[derive(Debug, Clone, PartialEq, Eq)]
pub struct Payload {
    pub bytes: Vec<u8>,
    pub verified: bool,
}

impl View for Payload {
    type V = PayloadView;

    open spec fn view(&self) -> PayloadView {
        PayloadView { bytes: self.bytes@, verified: self.verified }
    }
}

/// What the caller does next.
pub enum Step {
    /// Report `position` to the progress sink and read the next item.
    Read { download: Download, position: u64 },
    /// Create or truncate the destination and write all of the payload.
    Write(Payload),
    /// Stop. Nothing is written.
    Fail(DownloadFailure),
}

impl View for Download {
    type V = DownloadView;

    closed spec fn view(&self) -> DownloadView {
        DownloadView {
            total: self.total as nat,
            data: self.data@,
            expected: view_of(self.expected_hash),
        }
    }
}

impl Download {
    #[verifier::type_invariant]
    spec fn inv(self) -> bool {
        &&& absorbed(self.hasher) == self.data@
        &&& self.received == self@.position()
    }

    /// Takes the response. The download begins where the status is a
    /// success and the content length is declared.
    pub fn open(response: Response, expected_hash: Option<String>) -> (result: Result<
        Download,
        DownloadError,
    >)
        ensures
            match response {
                Response::Unreachable => result == Err::<Download, _>(
                    DownloadError::RequestFailed,
                ),
                Response::Answered { status, content_length } => if !is_success(status) {
                    result == Err::<Download, _>(DownloadError::RequestFailed)
                } else {
                    match content_length {
                        None => result == Err::<Download, _>(DownloadError::MissingLength),
                        Some(total) => result matches Ok(download) && download@
                            == DownloadView::opened(total as nat, view_of(expected_hash)),
                    }
                },
            },
    {
        match response {
            Response::Unreachable => Err(DownloadError::RequestFailed),
            Response::Answered { status, content_length } => {
                if status < 200 || status >= 300 {
                    return Err(DownloadError::RequestFailed);
                }
                match content_length {
                    None => Err(DownloadError::MissingLength),
                    Some(total) => Ok(
                        Download {
                            total,
                            received: 0,
                            data: Vec::new(),
                            hasher: hasher_new(),
                            expected_hash,
                        },
                    ),
                }
            },
        }
    }

    /// The declared content length.
    pub fn total(&self) -> (total: u64)
        ensures
            total == self@.total,
    {
        self.total
    }

    /// The progress position.
    pub fn position(&self) -> (position: u64)
        ensures
            position == self@.position(),
    {
        proof {
            use_type_invariant(self);
        }
        self.received
    }

    /// Takes the next chunk of the body: it is hashed, kept, and counted.
    /// The position never goes back and never passes the declared total.
    pub fn receive(self, chunk: &[u8]) -> (next: Download)
        ensures
            next@ == self@.receive(chunk@),
            self@.position() <= next@.position() <= self@.total,
    {
        proof {
            use_type_invariant(&self);
        }
        let Download { total, received, mut data, mut hasher, expected_hash } = self;
        hasher_update(&mut hasher, chunk);
        data.extend_from_slice(chunk);
        assert(data@ =~= self.data@ + chunk@);
        assert(received + chunk@.len() <= data.len());
        let sum: u64 = received + chunk.len() as u64;
        let received = if sum < total {
            sum
        } else {
            total
        };
        Download { total, received, data, hasher, expected_hash }
    }

    /// Ends the body: the digest is computed and, where one is expected,
    /// compared without regard to case. Only on agreement, or where none is
    /// expected, the bytes are handed over.
    pub fn finish(self) -> (result: Result<Payload, DownloadFailure>)
        ensures
            match result {
                Ok(payload) => self@.finish() == Ok::<_, FailureView>(payload@),
                Err(failure) => self@.finish() == Err::<PayloadView, _>(failure@),
            },
    {
        proof {
            use_type_invariant(&self);
        }
        let Download { total: _, received: _, data, hasher, expected_hash } = self;
        let digest = hasher_finalize(hasher);
        let computed = to_hex(digest.as_slice());
        match expected_hash {
            None => Ok(Payload { bytes: data, verified: false }),
            Some(expected) => {
                if matches_ignoring_case(expected.as_str(), computed.as_str()) {
                    Ok(Payload { bytes: data, verified: true })
                } else {
                    Err(DownloadFailure::HashMismatch { expected, computed })
                }
            },
        }
    }

    /// Decides what follows an item of the body.
    pub fn step(self, item: StreamItem) -> (step: Step)
        ensures
            match item {
                StreamItem::Chunk(chunk) => step matches Step::Read { download, position }
                    && download@ == self@.receive(chunk@) && position == download@.position()
                    && self@.position() <= position <= self@.total,
                StreamItem::Broken => step matches Step::Fail(failure) && failure@
                    == FailureView::Transfer(DownloadError::StreamReadFailed),
                StreamItem::End => match self@.finish() {
                    Ok(payload) => step matches Step::Write(p) && p@ == payload,
                    Err(failure) => step matches Step::Fail(f) && f@ == failure,
                },
            },
    {
        match item {
            StreamItem::Chunk(chunk) => {
                let download = self.receive(chunk.as_slice());
                let position = download.position();
                Step::Read { download, position }
            },
            StreamItem::Broken => Step::Fail(
                DownloadFailure::Transfer(DownloadError::StreamReadFailed),
            ),
            StreamItem::End => match self.finish() {
                Ok(payload) => Step::Write(payload),
                Err(failure) => Step::Fail(failure),
            },
        }
    }
}

impl Payload {
    /// Takes the result of the write. The download is complete where all
    /// bytes are in the file.
    pub fn conclude(self, local_path: String, written: WriteResult) -> (result: Result<
        DownloadOutcome,
        DownloadError,
    >)
        ensures
            match written {
                WriteResult::Complete => result matches Ok(outcome) && outcome.local_path
                    == local_path && outcome.bytes_written == self.bytes@.len()
                    && outcome.verified == self.verified,
                _ => result == Err::<DownloadOutcome, _>(DownloadError::WriteFailed),
            },
    {
        match written {
            WriteResult::Complete => Ok(
                DownloadOutcome {
                    local_path,
                    bytes_written: self.bytes.len() as u64,
                    verified: self.verified,
                },
            ),
            _ => Err(DownloadError::WriteFailed),
        }
    }
}

/// The bytes held after a sequence of chunks are the bytes held before,
/// followed by the chunks laid end to end. The declared total and the
/// expected digest stay as they were.
pub proof fn lemma_receive_all_appends(start: DownloadView, chunks: Seq<Seq<u8>>)
    ensures
        start.receive_all(chunks).data == start.data + chunks.flatten(),
        start.receive_all(chunks).total == start.total,
        start.receive_all(chunks).expected == start.expected,
    decreases chunks.len(),
{
    if chunks.len() == 0 {
        assert(start.data + chunks.flatten() =~= start.data);
    } else {
        lemma_receive_all_appends(start, chunks.drop_last());
        chunks.lemma_flatten_and_flatten_alt_are_equivalent();
        chunks.drop_last().lemma_flatten_and_flatten_alt_are_equivalent();
        assert(start.data + chunks.drop_last().flatten() + chunks.last() =~= start.data
            + chunks.flatten());
    }
}

/// A body that arrives whole, in chunks cut anywhere, and whose expected
/// digest is the lowercase hexadecimal SHA-512 digest of the body, is handed
/// over for writing byte for byte, and counts as verified.
pub proof fn lemma_correct_hash_is_accepted(
    total: nat,
    body: Seq<u8>,
    chunks: Seq<Seq<u8>>,
    expected: Seq<char>,
)
    requires
        chunks.flatten() == body,
        expected == hex(sha512(body)),
    ensures
        DownloadView::opened(total, Some(expected)).receive_all(chunks).finish() == Ok::<
            _,
            FailureView,
        >(PayloadView { bytes: body, verified: true }),
{
    let start = DownloadView::opened(total, Some(expected));
    lemma_receive_all_appends(start, chunks);
    assert(start.data + chunks.flatten() =~= body);
}

/// The comparison with the expected digest does not look at the case of its
/// letters: an expected digest that agrees with the computed one up to case
/// is accepted as well.
pub proof fn lemma_hash_case_is_ignored(
    total: nat,
    body: Seq<u8>,
    chunks: Seq<Seq<u8>>,
    expected: Seq<char>,
)
    requires
        chunks.flatten() == body,
        eq_ignore_ascii_case(expected, hex(sha512(body))),
    ensures
        DownloadView::opened(total, Some(expected)).receive_all(chunks).finish() == Ok::<
            _,
            FailureView,
        >(PayloadView { bytes: body, verified: true }),
{
    let start = DownloadView::opened(total, Some(expected));
    lemma_receive_all_appends(start, chunks);
    assert(start.data + chunks.flatten() =~= body);
}

/// A body whose digest is not the expected one, even with the case of
/// letters set aside, is never handed over for writing: the download ends in
/// a mismatch that carries both digests.
pub proof fn lemma_wrong_hash_is_rejected(
    total: nat,
    body: Seq<u8>,
    chunks: Seq<Seq<u8>>,
    expected: Seq<char>,
)
    requires
        chunks.flatten() == body,
        !eq_ignore_ascii_case(expected, hex(sha512(body))),
    ensures
        DownloadView::opened(total, Some(expected)).receive_all(chunks).finish() == Err::<
            PayloadView,
            _,
        >(FailureView::HashMismatch { expected, computed: hex(sha512(body)) }),
{
    let start = DownloadView::opened(total, Some(expected));
    lemma_receive_all_appends(start, chunks);
    assert(start.data + chunks.flatten() =~= body);
}

/// Without an expected digest every body is handed over for writing, byte
/// for byte, and counts as not verified.
pub proof fn lemma_no_hash_accepts_everything(total: nat, body: Seq<u8>, chunks: Seq<Seq<u8>>)
    requires
        chunks.flatten() == body,
    ensures
        DownloadView::opened(total, None).receive_all(chunks).finish() == Ok::<_, FailureView>(
            PayloadView { bytes: body, verified: false },
        ),
{
    let start = DownloadView::opened(total, None);
    lemma_receive_all_appends(start, chunks);
    assert(start.data + chunks.flatten() =~= body);
}

/// Over the course of a download the progress position never goes back and
/// never passes the declared total: after `i` chunks it is at most what it
/// is after `j >= i` chunks, which is at most the total.
pub proof fn lemma_progress_is_monotonic(
    start: DownloadView,
    chunks: Seq<Seq<u8>>,
    i: int,
    j: int,
)
    requires
        0 <= i <= j <= chunks.len(),
    ensures
        start.receive_all(chunks.take(i)).position() <= start.receive_all(
            chunks.take(j),
        ).position() <= start.total,
    decreases j - i,
{
    lemma_receive_all_appends(start, chunks.take(j));
    if i < j {
        lemma_progress_is_monotonic(start, chunks, i, j - 1);
        assert(chunks.take(j).drop_last() =~= chunks.take(j - 1));
    }
}

} // verus!
