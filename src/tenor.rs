use vstd::prelude::*;
use vstd::string::*;

use rand::Rng;

verus! {

/// How many of the leading results a search considers when no number is
/// given.
pub const DEFAULT_CONSIDERED: u8 = 10;

/// What the search service answered, decoded: the download address of each
/// result in order, or the error object it sent instead.
pub enum SearchResponse {
    Results(Vec<String>),
    Error { code: u32, message: String },
}

/// Why a network call failed, as the HTTP client reports it: whether the
/// failure concerns the body, its decoding, a timeout or the status, and a
/// description.
pub struct TransportFailure {
    pub body: bool,
    pub decode: bool,
    pub timeout: bool,
    pub status: bool,
    pub message: String,
}

pub enum TenorError {
    /// None of the considered results exists.
    NoGifFound { query: String },
    /// The request could not be sent.
    Request { message: String },
    /// The response could not be read or decoded.
    Response { message: String },
    /// The service answered with an error object.
    TenorApi { code: u32, message: String },
}

pub open spec fn concerns_response(f: TransportFailure) -> bool {
    f.body || f.decode || f.timeout || f.status
}

impl vstd::std_specs::convert::FromSpecImpl<TransportFailure> for TenorError {
    open spec fn obeys_from_spec() -> bool {
        true
    }

    open spec fn from_spec(f: TransportFailure) -> TenorError {
        if concerns_response(f) {
            TenorError::Response { message: f.message }
        } else {
            TenorError::Request { message: f.message }
        }
    }
}

impl From<TransportFailure> for TenorError {
    /// A failure of the body, of decoding, a timeout or a bad status happened
    /// once a response was there; anything else while sending.
    fn from(f: TransportFailure) -> (e: TenorError) {
        if f.body || f.decode || f.timeout || f.status {
            TenorError::Response { message: f.message }
        } else {
            TenorError::Request { message: f.message }
        }
    }
}

pub open spec fn limit_of(considered_gifs: Option<u8>) -> nat {
    match considered_gifs {
        Some(c) => c as nat,
        None => DEFAULT_CONSIDERED as nat,
    }
}

/// The number of results that a pick is made from: the first
/// `considered_gifs` of them, or all when fewer came.
pub open spec fn pool_size(considered_gifs: Option<u8>, n_results: nat) -> nat {
    if n_results < limit_of(considered_gifs) {
        n_results
    } else {
        limit_of(considered_gifs)
    }
}

/// The number of results to ask the service for.
pub fn candidate_limit(considered_gifs: Option<u8>) -> (r: u8)
    ensures
        r == limit_of(considered_gifs),
{
    match considered_gifs {
        Some(c) => c,
        None => DEFAULT_CONSIDERED,
    }
}

/// The size of the pool that a result is picked from.
pub fn considered_pool(considered_gifs: Option<u8>, n_results: usize) -> (r: u8)
    ensures
        r == pool_size(considered_gifs, n_results as nat),
{
    let limit = candidate_limit(considered_gifs);
    if n_results < limit as usize {
        n_results as u8
    } else {
        limit
    }
}

/// What a search with `draw` as the picked position gives: the service's
/// error, `NoGifFound` when the pool is empty, else the address at `draw`.
pub open spec fn pick_outcome(
    query: Seq<char>,
    considered_gifs: Option<u8>,
    response: SearchResponse,
    draw: nat,
    r: Result<String, TenorError>,
) -> bool {
    match response {
        SearchResponse::Error { code, message } => r matches Err(TenorError::TenorApi { code: c, message: m }) && c
            == code && m@ == message@,
        SearchResponse::Results(urls) => if pool_size(considered_gifs, urls@.len()) == 0 {
            r matches Err(TenorError::NoGifFound { query: q }) && q@ == query
        } else {
            r matches Ok(url) && url@ == urls@[draw as int]@
        },
    }
}

/// `draw` is a position in the pool, where there is one.
pub open spec fn draw_in_pool(considered_gifs: Option<u8>, response: SearchResponse, draw: nat) -> bool {
    match response {
        SearchResponse::Results(urls) => pool_size(considered_gifs, urls@.len()) == 0 || draw < pool_size(
            considered_gifs,
            urls@.len(),
        ),
        SearchResponse::Error { .. } => true,
    }
}

/// The address at position `draw` of the results, with the errors of a
/// search: `draw` stands for the random pick.
pub fn pick_webm(search_term: &str, considered_gifs: Option<u8>, response: SearchResponse, draw: u8) -> (r:
    Result<String, TenorError>)
    requires
        draw_in_pool(considered_gifs, response, draw as nat),
    ensures
        pick_outcome(search_term@, considered_gifs, response, draw as nat, r),
{
    match response {
        SearchResponse::Error { code, message } => Err(TenorError::TenorApi { code, message }),
        SearchResponse::Results(urls) => {
            let pool = considered_pool(considered_gifs, urls.len());
            if pool == 0 {
                Err(TenorError::NoGifFound { query: String::from_str(search_term) })
            } else {
                Ok(urls[draw as usize].clone())
            }
        },
    }
}

/// Relies on rand's `thread_rng().gen_range(0..bound)`: a number drawn
/// uniformly below `bound`. `gen_range` panics on an empty range, hence the
/// bound is positive.
#[verifier::external_body]
fn draw_below(bound: u8) -> (r: u8)
    requires
        bound > 0,
    ensures
        r < bound,
{
    rand::thread_rng().gen_range(0..bound)
}

/// Picks one of the first `considered_gifs` results (10 when none is given)
/// at random and returns its address.
pub fn random_webm(search_term: &str, considered_gifs: Option<u8>, response: SearchResponse) -> (r:
    Result<String, TenorError>)
    ensures
        exists|draw: nat|
            draw_in_pool(considered_gifs, response, draw) && pick_outcome(
                search_term@,
                considered_gifs,
                response,
                draw,
                r,
            ),
        response matches SearchResponse::Results(urls) ==> (r matches Err(TenorError::NoGifFound { .. })
            <==> pool_size(considered_gifs, urls@.len()) == 0),
{
    let draw: u8 = match &response {
        SearchResponse::Results(urls) => {
            let pool = considered_pool(considered_gifs, urls.len());
            if pool > 0 {
                draw_below(pool)
            } else {
                0
            }
        },
        SearchResponse::Error { .. } => 0,
    };
    let ghost answered = response;
    let r = pick_webm(search_term, considered_gifs, response, draw);
    assert(draw_in_pool(considered_gifs, answered, draw as nat) && pick_outcome(
        search_term@,
        considered_gifs,
        answered,
        draw as nat,
        r,
    ));
    r
}

} // verus!
