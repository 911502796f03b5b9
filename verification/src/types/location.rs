//! Where a document lives, and the address codec of the object-store case.
//!
//! An object-store location is written as a virtual-hosted-style URL,
//! `https://{bucket}.{region}.{rest of the endpoint's domain}/{key}`.

use crate::text::{
    chars_of, find_char, first_index_of, lemma_first_index_is, lemma_first_index_of, text_between,
};
use crate::types::errors::StoreError;
use vstd::prelude::*;
use vstd::string::*;

verus! {

/// A path on the local file system.
pub type LocalPath = String;

/// A fully decomposed object-store address.
#[derive(Debug, PartialEq, Eq)]
pub struct S3Location {
    pub key: String,
    pub bucket: String,
    pub endpoint: String,
    pub region: String,
}

/// Mathematical content of an [`S3Location`].
pub struct S3LocationView {
    pub key: Seq<char>,
    pub bucket: Seq<char>,
    pub endpoint: Seq<char>,
    pub region: Seq<char>,
}

impl View for S3Location {
    type V = S3LocationView;

    open spec fn view(&self) -> S3LocationView {
        S3LocationView {
            key: self.key@,
            bucket: self.bucket@,
            endpoint: self.endpoint@,
            region: self.region@,
        }
    }
}

impl Clone for S3Location {
    fn clone(&self) -> (copy: Self)
        ensures
            copy == *self,
    {
        S3Location {
            key: self.key.clone(),
            bucket: self.bucket.clone(),
            endpoint: self.endpoint.clone(),
            region: self.region.clone(),
        }
    }
}

/// Address of a document: on local disk, or in an object store.
#[derive(Debug, PartialEq, Eq)]
pub enum FileLocation {
    S3Location(S3Location),
    LocalPath(LocalPath),
}

/// Mathematical content of a [`FileLocation`].
pub enum FileLocationView {
    S3Location(S3LocationView),
    LocalPath(Seq<char>),
}

impl View for FileLocation {
    type V = FileLocationView;

    open spec fn view(&self) -> FileLocationView {
        match self {
            FileLocation::S3Location(location) => FileLocationView::S3Location(location@),
            FileLocation::LocalPath(path) => FileLocationView::LocalPath(path@),
        }
    }
}

impl Clone for FileLocation {
    fn clone(&self) -> (copy: Self)
        ensures
            copy == *self,
    {
        match self {
            FileLocation::S3Location(location) => FileLocation::S3Location(location.clone()),
            FileLocation::LocalPath(path) => FileLocation::LocalPath(path.clone()),
        }
    }
}

/// The scheme every address starts with: `https://`.
pub open spec fn scheme() -> Seq<char> {
    seq!['h', 't', 't', 'p', 's', ':', '/', '/']
}

/// `s` starts with the scheme.
pub open spec fn has_scheme(s: Seq<char>) -> bool {
    s.len() >= 8 && s.subrange(0, 8) == scheme()
}

/// No position of `s` holds `c`.
pub open spec fn free_of(s: Seq<char>, c: char) -> bool {
    forall|i: int| 0 <= i < s.len() ==> s[i] != c
}

/// The endpoint without its scheme; an endpoint that carries no scheme is
/// taken as it is.
pub open spec fn host_part(endpoint: Seq<char>) -> Seq<char> {
    if has_scheme(endpoint) {
        endpoint.skip(8)
    } else {
        endpoint
    }
}

/// The address of `location`: scheme, bucket, a dot, the endpoint's host,
/// and, for a key that is not empty, a slash and the key.
pub open spec fn encode_uri(location: S3LocationView) -> Seq<char> {
    let base = scheme() + location.bucket + seq!['.'] + host_part(location.endpoint);
    if location.key.len() > 0 {
        base + seq!['/'] + location.key
    } else {
        base
    }
}

/// The location that `uri` names, if it names one.
///
/// After the scheme, the host runs to the first slash and the key is what
/// follows that slash. The host's first label is the bucket, its second the
/// region, and the endpoint is the scheme followed by the host without its
/// bucket label. An address without the scheme, or whose host has fewer
/// than three labels, names nothing.
pub open spec fn decode_uri(uri: Seq<char>) -> Option<S3LocationView> {
    if !has_scheme(uri) {
        None
    } else {
        let rest = uri.skip(8);
        let slash = first_index_of(rest, '/');
        let host = rest.take(slash);
        let key = if slash < rest.len() {
            rest.skip(slash + 1)
        } else {
            Seq::<char>::empty()
        };
        let dot = first_index_of(host, '.');
        let tail = host.skip(dot + 1);
        let next_dot = first_index_of(tail, '.');
        if dot >= host.len() || next_dot >= tail.len() {
            None
        } else {
            Some(
                S3LocationView {
                    key,
                    bucket: host.take(dot),
                    endpoint: scheme() + tail,
                    region: tail.take(next_dot),
                },
            )
        }
    }
}

impl S3LocationView {
    /// The location is one that an address can name: bucket and region are
    /// single labels, and the endpoint is the scheme, the region, a dot and
    /// a domain, with no slash after the scheme.
    pub open spec fn well_formed(self) -> bool {
        let host = self.endpoint.skip(8);
        &&& has_scheme(self.endpoint)
        &&& free_of(self.bucket, '.')
        &&& free_of(self.bucket, '/')
        &&& free_of(self.region, '.')
        &&& free_of(host, '/')
        &&& self.region.len() < host.len()
        &&& host.take(self.region.len() as int) == self.region
        &&& host[self.region.len() as int] == '.'
    }
}

/// In `a + b`, where `a` holds no `c`, the first `c` is the first `c` of `b`.
proof fn lemma_first_index_after(a: Seq<char>, b: Seq<char>, c: char)
    requires
        free_of(a, c),
    ensures
        first_index_of(a + b, c) == a.len() + first_index_of(b, c),
{
    lemma_first_index_of(b, c);
    let k = first_index_of(b, c);
    let whole = a + b;
    assert forall|j: int| 0 <= j < a.len() + k implies whole[j] != c by {
        if j >= a.len() {
            assert(whole[j] == b[j - a.len()]);
        }
    }
    if a.len() + k < whole.len() {
        assert(whole[a.len() + k] == b[k]);
    }
    lemma_first_index_is(whole, c, a.len() + k);
}

/// A text that is empty or starts with `c` has its first `c` at position 0.
proof fn lemma_first_index_at_start(s: Seq<char>, c: char)
    requires
        s.len() > 0 ==> s[0] == c,
    ensures
        first_index_of(s, c) == 0,
{
    reveal(first_index_of);
}

/// Decoding the address of a well-formed location gives the location back.
proof fn lemma_decode_of_encoded(location: S3LocationView)
    requires
        location.well_formed(),
    ensures
        decode_uri(encode_uri(location)) == Some(location),
{
    let uri = encode_uri(location);
    let served = location.endpoint.skip(8);
    let path = if location.key.len() > 0 {
        seq!['/'] + location.key
    } else {
        Seq::<char>::empty()
    };
    let labels = seq!['.'] + served;
    let named = location.bucket + labels;
    let domain = served.skip(location.region.len() as int);
    assert(uri =~= scheme() + (named + path));
    assert(has_scheme(uri)) by {
        assert(uri.subrange(0, 8) =~= scheme());
    }
    let rest = uri.skip(8);
    assert(rest =~= named + path);
    assert(first_index_of(rest, '/') == named.len()) by {
        assert forall|i: int| 0 <= i < named.len() implies named[i] != '/' by {
            if i > location.bucket.len() {
                assert(named[i] == served[i - location.bucket.len() - 1]);
            }
        }
        lemma_first_index_at_start(path, '/');
        lemma_first_index_after(named, path, '/');
    }
    let host = rest.take(named.len() as int);
    assert(host =~= named);
    assert(first_index_of(named, '.') == location.bucket.len()) by {
        lemma_first_index_at_start(labels, '.');
        lemma_first_index_after(location.bucket, labels, '.');
    }
    let tail = named.skip(location.bucket.len() as int + 1);
    assert(tail =~= served);
    assert(first_index_of(served, '.') == location.region.len()) by {
        assert(served =~= location.region + domain);
        lemma_first_index_at_start(domain, '.');
        lemma_first_index_after(location.region, domain, '.');
    }
    let decoded = decode_uri(uri)->Some_0;
    assert(decode_uri(uri) is Some);
    assert(decoded.key =~= location.key);
    assert(decoded.bucket =~= location.bucket);
    assert(decoded.region =~= location.region);
    assert(decoded.endpoint =~= location.endpoint) by {
        assert(location.endpoint =~= location.endpoint.subrange(0, 8) + served);
    }
}

/// Every location that an address names is well formed.
proof fn lemma_decoded_well_formed(uri: Seq<char>)
    requires
        decode_uri(uri) is Some,
    ensures
        decode_uri(uri)->Some_0.well_formed(),
{
    let location = decode_uri(uri)->Some_0;
    let rest = uri.skip(8);
    let slash = first_index_of(rest, '/');
    let host = rest.take(slash);
    let dot = first_index_of(host, '.');
    let tail = host.skip(dot + 1);
    lemma_first_index_of(rest, '/');
    lemma_first_index_of(host, '.');
    lemma_first_index_of(tail, '.');
    assert(location.endpoint.subrange(0, 8) =~= scheme());
    assert(location.endpoint.skip(8) =~= tail);
    assert forall|i: int| 0 <= i < tail.len() implies tail[i] != '/' by {
        assert(tail[i] == rest[dot + 1 + i]);
    }
    assert forall|i: int| 0 <= i < location.bucket.len() implies location.bucket[i] != '/' by {
        assert(location.bucket[i] == rest[i]);
    }
    assert forall|i: int| 0 <= i < location.bucket.len() implies location.bucket[i] != '.' by {
        assert(location.bucket[i] == host[i]);
    }
    assert forall|i: int| 0 <= i < location.region.len() implies location.region[i] != '.' by {
        assert(location.region[i] == tail[i]);
    }
}

/// Round trip, from the location: decoding the address of a location gives
/// the location back exactly when the location is well formed.
pub proof fn lemma_decode_encode(location: S3LocationView)
    ensures
        location.well_formed() <==> decode_uri(encode_uri(location)) == Some(location),
{
    if location.well_formed() {
        lemma_decode_of_encoded(location);
    }
    if decode_uri(encode_uri(location)) == Some(location) {
        lemma_decoded_well_formed(encode_uri(location));
    }
}

impl S3LocationView {
    /// The address `uri` is the one that is written for the location it
    /// names: it names a location, and its first slash after the scheme, if
    /// it has one, is followed by a key.
    pub open spec fn canonical(uri: Seq<char>) -> bool {
        &&& decode_uri(uri) is Some
        &&& first_index_of(uri.skip(8), '/') + 1 != uri.skip(8).len()
    }
}

/// Round trip, from the address: encoding the location that a canonical
/// address names gives the address back.
pub proof fn lemma_encode_decode(uri: Seq<char>)
    requires
        S3LocationView::canonical(uri),
    ensures
        encode_uri(decode_uri(uri)->Some_0) == uri,
{
    let location = decode_uri(uri)->Some_0;
    let rest = uri.skip(8);
    let slash = first_index_of(rest, '/');
    let host = rest.take(slash);
    let dot = first_index_of(host, '.');
    let tail = host.skip(dot + 1);
    lemma_first_index_of(rest, '/');
    lemma_first_index_of(host, '.');
    assert(location.endpoint.subrange(0, 8) =~= scheme());
    assert(host_part(location.endpoint) =~= tail);
    assert(host =~= location.bucket + seq!['.'] + tail);
    assert(uri =~= scheme() + rest);
    if slash < rest.len() {
        assert(rest =~= host + seq!['/'] + location.key);
        assert(encode_uri(location) =~= uri);
    } else {
        assert(rest =~= host);
        assert(encode_uri(location) =~= uri);
    }
}

/// Whether `chars` starts with the scheme.
fn starts_with_scheme(chars: &Vec<char>) -> (found: bool)
    ensures
        found == has_scheme(chars@),
{
    let found = chars.len() >= 8 && chars[0] == 'h' && chars[1] == 't' && chars[2] == 't'
        && chars[3] == 'p' && chars[4] == 's' && chars[5] == ':' && chars[6] == '/' && chars[7]
        == '/';
    proof {
        if found {
            assert(chars@.subrange(0, 8) =~= scheme());
        } else if chars.len() >= 8 {
            let head = chars@.subrange(0, 8);
            assert(head[0] == chars@[0] && head[1] == chars@[1] && head[2] == chars@[2] && head[3]
                == chars@[3] && head[4] == chars@[4] && head[5] == chars@[5] && head[6]
                == chars@[6] && head[7] == chars@[7]);
        }
    }
    found
}

impl vstd::std_specs::convert::FromSpecImpl<S3Location> for String {
    /// Two texts with the same characters need not be the same value, so
    /// the result is stated over its characters, on `from` itself.
    open spec fn obeys_from_spec() -> bool {
        false
    }

    open spec fn from_spec(location: S3Location) -> String {
        arbitrary()
    }
}

impl From<S3Location> for String {
    /// Writes the address of `location`.
    fn from(location: S3Location) -> (url: String)
        ensures
            url@ == encode_uri(location@),
    {
        let endpoint_chars = chars_of(location.endpoint.as_str());
        let mut url = String::from_str("https://");
        proof {
            reveal_strlit("https://");
            reveal_strlit(".");
            reveal_strlit("/");
            assert(url@ =~= scheme());
        }
        url.append(location.bucket.as_str());
        url.append(".");
        if starts_with_scheme(&endpoint_chars) {
            let host = text_between(location.endpoint.as_str(), 8, endpoint_chars.len());
            url.append(host.as_str());
        } else {
            url.append(location.endpoint.as_str());
        }
        assert(url@ =~= scheme() + location.bucket@ + seq!['.'] + host_part(location.endpoint@));
        if !location.key.as_str().is_empty() {
            url.append("/");
            url.append(location.key.as_str());
            assert(url@ =~= encode_uri(location@));
        }
        url
    }
}

impl vstd::std_specs::convert::TryFromSpecImpl<String> for S3Location {
    /// Two texts with the same characters need not be the same value, so
    /// the result is stated over its characters, on `try_from` itself.
    open spec fn obeys_try_from_spec() -> bool {
        false
    }

    open spec fn try_from_spec(value: String) -> Result<S3Location, StoreError> {
        arbitrary()
    }
}

impl TryFrom<String> for S3Location {
    type Error = StoreError;

    /// Reads the location that the address `value` names.
    fn try_from(value: String) -> (parsed: Result<S3Location, StoreError>)
        ensures
            match decode_uri(value@) {
                Some(location) => parsed is Ok && parsed->Ok_0@ == location,
                None => parsed == Err::<S3Location, StoreError>(StoreError::InvalidLocation),
            },
    {
        let chars = chars_of(value.as_str());
        if !starts_with_scheme(&chars) {
            return Err(StoreError::InvalidLocation);
        }
        let end = chars.len();
        let slash = find_char(&chars, 8, end, '/');
        let dot = find_char(&chars, 8, slash, '.');
        proof {
            assert(chars@.subrange(8, end as int) =~= value@.skip(8));
            assert(chars@.subrange(8, slash as int) =~= value@.skip(8).take(slash - 8));
        }
        if dot >= slash {
            return Err(StoreError::InvalidLocation);
        }
        let next_dot = find_char(&chars, dot + 1, slash, '.');
        proof {
            assert(chars@.subrange(dot + 1, slash as int) =~= value@.skip(8).take(slash - 8).skip(
                dot - 8 + 1,
            ));
        }
        if next_dot >= slash {
            return Err(StoreError::InvalidLocation);
        }
        let key = if slash < end {
            text_between(value.as_str(), slash + 1, end)
        } else {
            String::new()
        };
        let bucket = text_between(value.as_str(), 8, dot);
        let region = text_between(value.as_str(), dot + 1, next_dot);
        let tail = text_between(value.as_str(), dot + 1, slash);
        let mut endpoint = String::from_str("https://");
        endpoint.append(tail.as_str());
        let location = S3Location { key, bucket, endpoint, region };
        proof {
            reveal_strlit("https://");
            let named = decode_uri(value@)->Some_0;
            assert(location@.key =~= named.key);
            assert(location@.bucket =~= named.bucket);
            assert(location@.region =~= named.region);
            assert(location@.endpoint =~= named.endpoint);
        }
        Ok(location)
    }
}

} // verus!
