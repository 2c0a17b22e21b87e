use std::sync::Arc;
use vstd::prelude::*;

use crate::matching::opt_view;

verus! {

#[verifier::external_type_specification]
#[verifier::external_body]
pub struct ExMaxMindDbError(maxminddb::MaxMindDbError);

/// A client network address, as its octets in network order.
#[derive(Clone, Copy, Debug, PartialEq, Eq)]
pub enum ClientIp {
    V4([u8; 4]),
    V6([u8; 16]),
}

impl ClientIp {
    /// The address's octets: four for IPv4, sixteen for IPv6.
    pub open spec fn octets(self) -> Seq<u8> {
        match self {
            ClientIp::V4(a) => a@,
            ClientIp::V6(a) => a@,
        }
    }
}

/// Whether `bytes` open as a geographic dataset.
pub uninterp spec fn accepts_dataset(bytes: Seq<u8>) -> bool;

/// The bytes that open a dataset's metadata section.
pub open spec fn metadata_marker() -> Seq<u8> {
    seq![0xabu8, 0xcd, 0xef, 0x4d, 0x61, 0x78, 0x4d, 0x69, 0x6e, 0x64, 0x2e, 0x63, 0x6f, 0x6d]
}

/// `bytes` hold the metadata marker somewhere.
pub open spec fn holds_metadata_marker(bytes: Seq<u8>) -> bool {
    exists|i: int|
        0 <= i && i + 14 <= bytes.len() && #[trigger] bytes.subrange(i, i + 14) == metadata_marker()
}

/// The country code that the dataset `dataset` records for the address with
/// octets `address`, if it records one.
pub uninterp spec fn country_in(dataset: Seq<u8>, address: Seq<u8>) -> Option<Seq<char>>;

/// Why a dataset could not be opened.
#[derive(Debug)]
pub struct LoadError {
    pub reason: String,
}

/// The reader of an opened dataset behind a shared, reference-counted
/// handle. maxminddb's `Reader` carries an `AsRef` bound that Verus cannot
/// declare, so the handle is opaque here.
#[verifier::external_body]
pub struct SharedReader {
    inner: Arc<maxminddb::Reader<Vec<u8>>>,
}

/// The bytes that the reader behind a handle was opened from.
pub uninterp spec fn reader_dataset(reader: SharedReader) -> Seq<u8>;

/// A loaded, immutable geographic dataset, shared by reference between its
/// clones.
pub struct GeoDB {
    reader: SharedReader,
}

/// Relies on maxminddb::Reader::from_source (0.32): whether it accepts
/// `bytes` depends on them alone, and a blob without the metadata marker is
/// refused. It returns on every blob: lengths and offsets are computed with
/// checked arithmetic, the search tree is checked to end before the metadata,
/// and the metadata decoder checks every read against its buffer.
#[verifier::external_body]
fn reader_from_source(bytes: Vec<u8>) -> (r: Result<SharedReader, maxminddb::MaxMindDbError>)
    ensures
        r is Ok <==> accepts_dataset(bytes@),
        r is Ok ==> holds_metadata_marker(bytes@),
        r matches Ok(reader) ==> reader_dataset(reader) == bytes@,
{
    maxminddb::Reader::from_source(bytes).map(|reader| SharedReader { inner: Arc::new(reader) })
}

/// Relies on the Display impl of maxminddb::MaxMindDbError for a readable
/// reason.
#[verifier::external_body]
fn describe_error(e: &maxminddb::MaxMindDbError) -> (r: String) {
    e.to_string()
}

/// Relies on Arc::clone: the new handle points to the same reader, so it
/// stands for the same bytes.
#[verifier::external_body]
fn share_reader(reader: &SharedReader) -> (r: SharedReader)
    ensures
        r == *reader,
{
    SharedReader { inner: Arc::clone(&reader.inner) }
}

/// Relies on maxminddb::Reader::lookup and LookupResult::decode with the
/// geoip2 Country record (0.32): the ISO code of the record's country, found
/// from the dataset's bytes and the address alone. No record, no code, and
/// a lookup or decoding error give `None`. The lookup returns on every
/// address: tree walks stay below the node count that `from_source` checked
/// against the blob, and decoding is bounds-checked and budgeted.
#[verifier::external_body]
fn lookup_iso_code(reader: &SharedReader, ip: ClientIp) -> (r: Option<String>)
    ensures
        opt_view(r) == country_in(reader_dataset(*reader), ip.octets()),
{
    let found = match ip {
        ClientIp::V4(a) => reader.inner.lookup(a.into()),
        ClientIp::V6(a) => reader.inner.lookup(a.into()),
    };
    let decoded = match found {
        Ok(result) => result.decode::<maxminddb::geoip2::Country>(),
        Err(e) => Err(e),
    };
    match decoded {
        Ok(Some(record)) => record.country.iso_code.map(|code| code.to_string()),
        _ => None,
    }
}

impl GeoDB {
    /// The bytes the dataset was opened from.
    pub closed spec fn dataset(&self) -> Seq<u8> {
        reader_dataset(self.reader)
    }

    /// Opens a dataset from its bytes.
    pub fn open_from_bytes(bytes: Vec<u8>) -> (r: Result<GeoDB, LoadError>)
        ensures
            r is Ok <==> accepts_dataset(bytes@),
            r is Ok ==> holds_metadata_marker(bytes@),
            r matches Ok(db) ==> db.dataset() == bytes@,
    {
        match reader_from_source(bytes) {
            Ok(reader) => Ok(GeoDB { reader }),
            Err(e) => Err(LoadError { reason: describe_error(&e) }),
        }
    }

    /// The country code recorded for `ip`, or `None` where the dataset maps
    /// the address to no country.
    pub fn country(&self, ip: ClientIp) -> (r: Option<String>)
        ensures
            opt_view(r) == country_in(self.dataset(), ip.octets()),
    {
        lookup_iso_code(&self.reader, ip)
    }
}

impl Clone for GeoDB {
    /// Another handle on the same dataset; the data is not copied.
    fn clone(&self) -> (r: Self)
        ensures
            r.dataset() == self.dataset(),
    {
        GeoDB { reader: share_reader(&self.reader) }
    }
}

} // verus!
