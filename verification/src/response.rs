//! The download-response adapter: it wraps one stored file's handle
//! together with an optional file-name override, and turns the pair into
//! the header values and body choice of the outgoing HTTP response.

use vstd::prelude::*;

use crate::encoding::{disposition_value_spec, attachment_bytes, content_disposition_value};
use crate::handle::{FileData, StoredFileHandle};

verus! {

/// The body of the outgoing response.
pub enum ResponseBody {
    /// The body is exactly these bytes; the framework frames them itself,
    /// so no separate `Content-Length` header is emitted.
    Buffered(Vec<u8>),
    /// The body is streamed from the storage backend; the response carries
    /// this explicit `Content-Length`, captured from the handle's metadata.
    Streamed { content_length: u64 },
}

/// Everything the HTTP framework needs to build the response: the two
/// header values, as UTF-8 bytes, and the body choice.
pub struct ResponsePlan {
    /// The value of the `Content-Disposition` header.
    pub content_disposition: Vec<u8>,
    /// The value of the `Content-Type` header.
    pub content_type: Vec<u8>,
    /// The response body.
    pub body: ResponseBody,
}

/// The response adapter: a stored file's handle together with an optional
/// override of the externally visible file name.
pub struct FileCenterDownloadResponse {
    /// The override; it determines the visible name when present and
    /// non-empty.
    pub file_name: Option<Vec<u8>>,
    /// The wrapped handle, consumed once when the response is built.
    pub file_item: StoredFileHandle,
}

/// The externally visible file name: the override when it is present and
/// non-empty, otherwise the handle's stored name.
pub open spec fn visible_name_of(d: FileCenterDownloadResponse) -> Seq<u8> {
    match d.file_name {
        Option::Some(n) => if n@.len() > 0 {
            n@
        } else {
            d.file_item.file_name@
        },
        Option::None => d.file_item.file_name@,
    }
}

impl FileCenterDownloadResponse {
    /// Wrap a handle the caller already obtained; never fails.
    pub fn from_file_item(file_item: StoredFileHandle, file_name: Option<Vec<u8>>) -> (r: Self)
        ensures
            r.file_name == file_name,
            r.file_item == file_item,
    {
        FileCenterDownloadResponse { file_name, file_item }
    }

    /// Wrap the outcome of a lookup by identifier: a found handle yields a
    /// response, an absent file yields the "no file" result — never an
    /// error.
    pub fn from_lookup(found: Option<StoredFileHandle>, file_name: Option<Vec<u8>>) -> (r: Option<
        Self,
    >)
        ensures
            (found matches Some(h) ==> (r matches Some(d) && d.file_item == h && d.file_name
                == file_name)),
            (found is None ==> r is None),
    {
        match found {
            Some(h) => Some(Self::from_file_item(h, file_name)),
            None => None,
        }
    }

    /// Whether the wrapped file is temporary: true iff the handle carries
    /// an expiration time.
    pub fn is_temporary(&self) -> (r: bool)
        ensures
            r == (self.file_item.expiration_time is Some),
    {
        self.file_item.expiration_time.is_some()
    }

    /// Build the response: the `Content-Disposition` value for the visible
    /// name, the `Content-Type` value from the handle's MIME type, and the
    /// body — the resident bytes as they stand, or a streamed body whose
    /// `Content-Length` is the file size captured from the metadata.
    pub fn respond(self) -> (r: ResponsePlan)
        ensures
            r.content_disposition@ == disposition_value_spec(visible_name_of(self)),
            r.content_type@ == self.file_item.mime_type@,
            (self.file_item.file_data matches FileData::Buffer(v) ==> (r.body matches
                ResponseBody::Buffered(w) && w@ == v@)),
            (self.file_item.file_data is Stream ==> (r.body matches ResponseBody::Streamed {
                content_length,
            } && content_length == self.file_item.file_size)),
    {
        let FileCenterDownloadResponse { file_name, file_item } = self;
        let StoredFileHandle {
            file_name: stored_name,
            mime_type,
            file_size,
            expiration_time: _,
            file_data,
        } = file_item;
        let chosen: Vec<u8> = match file_name {
            Some(n) => if n.len() > 0 {
                n
            } else {
                stored_name
            },
            None => stored_name,
        };
        let content_disposition = content_disposition_value(chosen.as_slice());
        let body = match file_data {
            FileData::Buffer(v) => ResponseBody::Buffered(v),
            FileData::Stream => ResponseBody::Streamed { content_length: file_size },
        };
        ResponsePlan { content_disposition, content_type: mime_type, body }
    }
}

/// An empty visible file name — no usable override and an empty stored
/// name — produces the bare `attachment` disposition, with no filename
/// parameter.
pub proof fn lemma_empty_name_disposition(d: FileCenterDownloadResponse)
    requires
        (d.file_name matches Some(n) ==> n@.len() == 0),
        d.file_item.file_name@.len() == 0,
    ensures
        disposition_value_spec(visible_name_of(d)) == attachment_bytes(),
{
}

/// A present, non-empty override determines the visible file name,
/// whatever the stored name holds.
pub proof fn lemma_override_wins(d: FileCenterDownloadResponse, n: Vec<u8>)
    requires
        d.file_name == Some(n),
        n@.len() > 0,
    ensures
        visible_name_of(d) == n@,
{
}

} // verus!
