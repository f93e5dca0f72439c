//! The request coordinator: derive the cache key from the upload's identity
//! and the transform parameters, serve a hit from the cache, and on a miss run
//! the transform and memoize its result. Failures never touch the cache.

use vstd::prelude::*;
use vstd::string::StringExecFns;
use crate::cache::clone_bytes;
use crate::cache::contains_key;
use crate::cache::lookup;
use crate::cache::spec_put;
use crate::cache::spec_touch;
use crate::cache::CacheModel;
use crate::cache::LruCache;
use crate::keys::derive_key;
use crate::keys::spec_key;
use crate::transform::decode_ok;
use crate::transform::encode_ok;
use crate::transform::transform_image;
use crate::transform::transform_output;
use crate::transform::TransformError;

verus! {

/// The transform parameters of one request.
#[derive(Clone, Copy, Debug)]
pub struct ResizeParams {
    pub width: u32,
    pub height: u32,
    pub quality: u8,
}

impl ResizeParams {
    /// The parameters used when the configuration supplies none: 800 by 600
    /// at quality 80.
    pub fn defaults() -> (r: ResizeParams)
        ensures
            r.width == 800,
            r.height == 600,
            r.quality == 80,
    {
        ResizeParams { width: 800, height: 600, quality: 80 }
    }
}

/// Everything a failed request reports: what went wrong and, through
/// `status_code` and `message`, how it is surfaced.
#[derive(Debug)]
pub enum ResizeError {
    /// The request carried no file-bearing field.
    NoFile,
    /// The file-bearing field carried no filename.
    NoFilename,
    /// The uploaded bytes were not a supported image; holds the decoder's
    /// message.
    Decode(String),
    /// Reading the incoming stream failed; holds the transport's message.
    Transport(String),
    /// Producing the output bytes failed; holds the encoder's message.
    Encode(String),
}

impl ResizeError {
    /// The HTTP status the error is surfaced with: client errors are 400,
    /// internal failures are 500.
    pub open spec fn spec_status(&self) -> u16 {
        match self {
            ResizeError::NoFile => 400,
            ResizeError::NoFilename => 400,
            ResizeError::Decode(_) => 400,
            ResizeError::Transport(_) => 500,
            ResizeError::Encode(_) => 500,
        }
    }

    /// The HTTP status the error is surfaced with.
    pub fn status_code(&self) -> (r: u16)
        ensures
            r == self.spec_status(),
    {
        match self {
            ResizeError::NoFile => 400,
            ResizeError::NoFilename => 400,
            ResizeError::Decode(_) => 400,
            ResizeError::Transport(_) => 500,
            ResizeError::Encode(_) => 500,
        }
    }

    /// The plain-text message the error is surfaced with.
    pub open spec fn spec_message(&self) -> Seq<char> {
        match self {
            ResizeError::NoFile => "No image found"@,
            ResizeError::NoFilename => "Filename not found"@,
            ResizeError::Decode(m) => m@,
            ResizeError::Transport(m) => m@,
            ResizeError::Encode(m) => m@,
        }
    }

    /// The plain-text message the error is surfaced with.
    pub fn message(&self) -> (r: String)
        ensures
            r@ == self.spec_message(),
    {
        match self {
            ResizeError::NoFile => "No image found".to_owned(),
            ResizeError::NoFilename => "Filename not found".to_owned(),
            ResizeError::Decode(m) => m.clone(),
            ResizeError::Transport(m) => m.clone(),
            ResizeError::Encode(m) => m.clone(),
        }
    }
}

/// The first file-bearing field of a request: its filename, if the field
/// carried one, and its accumulated bytes.
#[derive(Debug)]
pub struct Upload {
    pub filename: Option<String>,
    pub data: Vec<u8>,
}

/// A successful response: the JPEG bytes, the attachment header naming the
/// result after the upload, and whether the bytes came from the cache.
#[derive(Debug)]
pub struct ResizeResponse {
    pub body: Vec<u8>,
    pub content_disposition: String,
    pub served_from_cache: bool,
}

/// The value of the `Content-Disposition` header for a given upload name.
pub open spec fn spec_disposition(name: Seq<char>) -> Seq<char> {
    "attachment; filename=\"resized_"@ + name + "\""@
}

/// Builds the `Content-Disposition` header value for a given upload name.
pub fn disposition_header(filename: &str) -> (r: String)
    ensures
        r@ == spec_disposition(filename@),
{
    let mut s = "attachment; filename=\"resized_".to_owned();
    s.append(filename);
    s.append("\"");
    s
}

/// The `Content-Type` of every successful response.
pub fn jpeg_content_type() -> (r: &'static str)
    ensures
        r@ == "image/jpeg"@,
{
    "image/jpeg"
}

/// The body of the health check's response, whatever the cache or transform
/// state.
pub fn health_body() -> (r: &'static str)
    ensures
        r@ == "Healthy"@,
{
    "Healthy"
}

/// What one coordinated resize does, for an upload named `name` with bytes
/// `data`: on a hit the cached bytes come back and the entry is promoted; on
/// a miss the transform's output comes back and is memoized; on failure the
/// cache is untouched, and the request fails exactly when there is neither a
/// cached entry nor a successful transform.
pub open spec fn resize_outcome(
    pre: CacheModel,
    cap: nat,
    post: CacheModel,
    name: Seq<char>,
    data: Seq<u8>,
    params: ResizeParams,
    r: Result<ResizeResponse, ResizeError>,
) -> bool {
    let k = spec_key(name, params.width, params.height, params.quality);
    let hit = contains_key(pre, k);
    let transformed = decode_ok(data) && encode_ok(data, params.width, params.height, params.quality);
    &&& (r is Err <==> !hit && !transformed)
    &&& match r {
        Ok(resp) => {
            &&& resp.content_disposition@ == spec_disposition(name)
            &&& resp.served_from_cache == hit
            &&& if hit {
                &&& lookup(pre, k) == Some(resp.body@)
                &&& post == spec_touch(pre, k)
            } else {
                &&& resp.body@ == transform_output(data, params.width, params.height, params.quality)
                &&& post == spec_put(pre, k, resp.body@, cap)
            }
        },
        Err(e) => {
            &&& post == pre
            &&& (e is Decode <==> !decode_ok(data))
            &&& (e is Decode || e is Encode)
        },
    }
}

/// Coordinates one resize of `data` under the name `filename`: derives the
/// cache key, serves a hit from the cache, and on a miss transforms and
/// memoizes the result.
pub fn handle_resize(
    cache: &mut LruCache,
    filename: &str,
    data: &Vec<u8>,
    params: ResizeParams,
) -> (r: Result<ResizeResponse, ResizeError>)
    requires
        old(cache).wf(),
        params.width >= 1,
        params.height >= 1,
    ensures
        final(cache).wf(),
        final(cache).spec_capacity() == old(cache).spec_capacity(),
        resize_outcome(
            old(cache)@,
            old(cache).spec_capacity(),
            final(cache)@,
            filename@,
            data@,
            params,
            r,
        ),
{
    let key = derive_key(filename, params.width, params.height, params.quality);
    match cache.get(&key) {
        Some(body) => {
            let content_disposition = disposition_header(filename);
            Ok(ResizeResponse { body, content_disposition, served_from_cache: true })
        },
        None => {
            match transform_image(data, params.width, params.height, params.quality) {
                Ok(out) => {
                    let body = clone_bytes(&out);
                    cache.put(key, out);
                    let content_disposition = disposition_header(filename);
                    Ok(ResizeResponse { body, content_disposition, served_from_cache: false })
                },
                Err(TransformError::Decode(m)) => Err(ResizeError::Decode(m)),
                Err(TransformError::Encode(m)) => Err(ResizeError::Encode(m)),
            }
        },
    }
}

/// Coordinates one request end to end: rejects a request without a
/// file-bearing field or without a filename, and otherwise resizes the
/// upload. The cache is touched only by a served resize.
pub fn handle_upload(
    cache: &mut LruCache,
    upload: Option<Upload>,
    params: ResizeParams,
) -> (r: Result<ResizeResponse, ResizeError>)
    requires
        old(cache).wf(),
        params.width >= 1,
        params.height >= 1,
    ensures
        final(cache).wf(),
        final(cache).spec_capacity() == old(cache).spec_capacity(),
        match upload {
            None => r matches Err(e) && e is NoFile && final(cache)@ == old(cache)@,
            Some(u) => match u.filename {
                None => r matches Err(e) && e is NoFilename && final(cache)@ == old(cache)@,
                Some(name) => resize_outcome(
                    old(cache)@,
                    old(cache).spec_capacity(),
                    final(cache)@,
                    name@,
                    u.data@,
                    params,
                    r,
                ),
            },
        },
{
    match upload {
        None => Err(ResizeError::NoFile),
        Some(u) => match &u.filename {
            None => Err(ResizeError::NoFilename),
            Some(name) => handle_resize(cache, name.as_str(), &u.data, params),
        },
    }
}

} // verus!
